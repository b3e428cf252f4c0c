//! The sensor-raw stage: camera RAW formats are decoded and demosaiced by an
//! external pipeline into 8-bit sRGB samples, which are then expanded into a
//! normalized RGBA frame.

use vstd::prelude::*;

use crate::codec_jpegls::still_of_rgb_samples;
use crate::codec_native::{ImgView, SampleImage};
use crate::frame::{FrameView, Image, DEFAULT_DELAY_DEN, DEFAULT_DELAY_NUM};
use crate::pixels::spec_rgba_of_rgb;

verus! {

/// The developed sRGB picture the sensor-raw pipeline produces for these
/// bytes; `None` when decoding or developing fails.
pub uninterp spec fn spec_raw_developed(b: Seq<u8>) -> Option<ImgView>;

/// Relies on rawloader::decode and imagepipe::Pipeline (new_from_source, run,
/// output_8bit): the developed picture is a function of the bytes alone, and
/// its data holds width * height three-byte sRGB samples.
#[verifier::external_body]
fn develop_raw(bytes: &[u8]) -> (r: Result<SampleImage, String>)
    ensures
        r is Ok <==> spec_raw_developed(bytes@) is Some,
        r is Ok ==> r->Ok_0@ == spec_raw_developed(bytes@)->0,
        r is Ok ==> r->Ok_0@.pixels.len() == 3 * r->Ok_0@.width * r->Ok_0@.height,
{
    let raw = rawloader::decode(&mut std::io::Cursor::new(bytes)).map_err(|e| format!("{e}"))?;
    let mut pipeline = imagepipe::Pipeline::new_from_source(imagepipe::ImageSource::Raw(raw))
        .map_err(|e| format!("{e}"))?;
    pipeline.run(None);
    let developed = pipeline.output_8bit(None).map_err(|e| format!("{e}"))?;
    Ok(SampleImage { width: developed.width, height: developed.height, samples: developed.data })
}

/// What the sensor-raw stage yields: the developed sRGB picture expanded to a
/// single RGBA frame; `None` when the pipeline fails or the dimensions do not
/// fit a frame.
pub open spec fn spec_raw_visual(b: Seq<u8>) -> Option<Seq<FrameView>> {
    match spec_raw_developed(b) {
        None => None,
        Some(s) => {
            if s.width <= u32::MAX && s.height <= u32::MAX && s.pixels.len() == 3 * s.width
                * s.height {
                Some(
                    seq![
                        FrameView {
                            width: s.width,
                            height: s.height,
                            pixels: spec_rgba_of_rgb(s.pixels),
                            delay_num: DEFAULT_DELAY_NUM as int,
                            delay_den: DEFAULT_DELAY_DEN as int,
                        },
                    ],
                )
            } else {
                None
            }
        },
    }
}

/// The sensor-raw demosaic decode stage.
pub fn load_raw(bytes: &[u8]) -> (r: Result<Image, String>)
    ensures
        r is Ok <==> spec_raw_visual(bytes@) is Some,
        r is Ok ==> r->Ok_0.wf() && r->Ok_0@ == spec_raw_visual(bytes@)->0,
{
    let samples = match develop_raw(bytes) {
        Ok(s) => s,
        Err(e) => {
            return Err(e);
        },
    };
    still_of_rgb_samples(samples)
}

} // verus!
