//! The DICOM stage: a structured medical-image container is opened from
//! memory and every embedded frame is decoded; one frame yields a still,
//! several an animation whose frames carry the default display delay.

use vstd::prelude::*;

use dicom_pixeldata::PixelDecoder;

use crate::codec_native::{frame_of_still, spec_frame_of_still, CodecImage, ImgView};
use crate::frame::{FrameView, Image, RawImageFrame};

verus! {

/// How many frames the medical-image container holds, as its decoded pixel
/// data reports; `None` when the container cannot be opened or decoded.
pub uninterp spec fn spec_dicom_frame_count(b: Seq<u8>) -> Option<u32>;

/// The RGBA rendering of one embedded frame of the container; `None` when
/// opening, decoding or rendering that frame fails.
pub uninterp spec fn spec_dicom_frame(b: Seq<u8>, index: u32) -> Option<ImgView>;

/// Relies on dicom_object::from_reader and
/// dicom_pixeldata::PixelDecoder::decode_pixel_data: the frame count of the
/// decoded pixel data is a function of the bytes alone.
#[verifier::external_body]
fn dicom_frame_count(bytes: &[u8]) -> (r: Result<u32, String>)
    ensures
        r is Ok <==> spec_dicom_frame_count(bytes@) is Some,
        r is Ok ==> r->Ok_0 == spec_dicom_frame_count(bytes@)->0,
{
    let obj = dicom_object::from_reader(std::io::Cursor::new(bytes)).map_err(|e| format!("{e}"))?;
    let decoded = obj.decode_pixel_data().map_err(|e| format!("{e}"))?;
    Ok(decoded.number_of_frames())
}

/// Relies on dicom_object::from_reader,
/// dicom_pixeldata::PixelDecoder::decode_pixel_data_frame and
/// DecodedPixelData::to_dynamic_image with into_rgba8: the rendering of one
/// frame is a function of the bytes and the frame index alone, and an RGBA8
/// buffer holds at least width * height four-byte pixels.
#[verifier::external_body]
fn decode_dicom_frame(bytes: &[u8], index: u32) -> (r: Result<CodecImage, String>)
    ensures
        r is Ok <==> spec_dicom_frame(bytes@, index) is Some,
        r is Ok ==> r->Ok_0@ == spec_dicom_frame(bytes@, index)->0,
        r is Ok ==> r->Ok_0@.pixels.len() >= 4 * r->Ok_0@.width * r->Ok_0@.height,
{
    let obj = dicom_object::from_reader(std::io::Cursor::new(bytes)).map_err(|e| format!("{e}"))?;
    let decoded = obj.decode_pixel_data_frame(index).map_err(|e| format!("{e}"))?;
    let img = decoded.to_dynamic_image(0).map_err(|e| format!("{e}"))?;
    let rgba = img.into_rgba8();
    Ok(CodecImage { width: rgba.width(), height: rgba.height(), pixels: rgba.into_raw() })
}

/// The first `n` embedded frames, each as a normalized frame with the default
/// delay; `None` as soon as one of them fails to render.
pub open spec fn spec_dicom_frames(b: Seq<u8>, n: int) -> Option<Seq<FrameView>>
    decreases n,
{
    if n <= 0 {
        Some(Seq::empty())
    } else {
        match spec_dicom_frames(b, n - 1) {
            None => None,
            Some(fs) => match spec_dicom_frame(b, (n - 1) as u32) {
                None => None,
                Some(img) => Some(fs.push(spec_frame_of_still(img))),
            },
        }
    }
}

/// What the DICOM stage yields: all embedded frames in order, each with the
/// default delay; `None` when the container cannot be decoded, holds no
/// frame, or one of its frames fails to render.
pub open spec fn spec_dicom_visual(b: Seq<u8>) -> Option<Seq<FrameView>> {
    match spec_dicom_frame_count(b) {
        None => None,
        Some(n) => {
            if n == 0 {
                None
            } else {
                spec_dicom_frames(b, n as int)
            }
        },
    }
}

proof fn lemma_dicom_frames_none(b: Seq<u8>, i: u32, n: u32)
    requires
        i < n,
        spec_dicom_frame(b, i) is None,
    ensures
        spec_dicom_frames(b, n as int) is None,
    decreases n,
{
    if n as int - 1 > i {
        lemma_dicom_frames_none(b, i, (n - 1) as u32);
    }
}

/// The DICOM decode stage: opens the container, decodes all embedded frames,
/// and collapses a single frame to a still.
pub fn load_dicom(bytes: &[u8]) -> (r: Result<Image, String>)
    ensures
        r is Ok <==> spec_dicom_visual(bytes@) is Some,
        r is Ok ==> r->Ok_0.wf() && r->Ok_0@ == spec_dicom_visual(bytes@)->0,
{
    let count = match dicom_frame_count(bytes) {
        Ok(n) => n,
        Err(e) => {
            return Err(e);
        },
    };
    if count == 0 {
        return Err(String::new());
    }
    let mut frames: Vec<RawImageFrame> = Vec::new();
    let mut i: u32 = 0;
    proof {
        assert(spec_dicom_frames(bytes@, 0) == Some(Seq::<FrameView>::empty()));
        assert(frames@.map_values(|f: RawImageFrame| f@) =~= Seq::<FrameView>::empty());
    }
    while i < count
        invariant
            spec_dicom_frame_count(bytes@) == Some(count),
            count > 0,
            i <= count,
            frames@.len() == i,
            spec_dicom_frames(bytes@, i as int) == Some(
                frames@.map_values(|f: RawImageFrame| f@),
            ),
            forall|k: int| 0 <= k < frames@.len() ==> (#[trigger] frames@[k]).wf(),
        decreases count - i,
    {
        let img = match decode_dicom_frame(bytes, i) {
            Ok(img) => img,
            Err(e) => {
                proof {
                    lemma_dicom_frames_none(bytes@, i, count);
                }
                return Err(e);
            },
        };
        let ghost prev = frames@.map_values(|f: RawImageFrame| f@);
        let frame = frame_of_still(img);
        frames.push(frame);
        proof {
            assert(frames@.map_values(|f: RawImageFrame| f@) =~= prev.push(
                spec_frame_of_still(img@),
            ));
        }
        i = i + 1;
    }
    let r = Image::from_frames(frames);
    match r {
        Some(img) => Ok(img),
        None => {
            proof {
                assert(false);
            }
            Err(String::new())
        },
    }
}

} // verus!
