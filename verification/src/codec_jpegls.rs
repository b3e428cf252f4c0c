//! The lossless-JPEG stage: a dedicated codec decodes the bitstream into raw
//! samples; only three-channel RGB output is accepted, and it is reassembled
//! into a normalized RGBA frame of the codec-reported dimensions.

use vstd::prelude::*;

use crate::codec_native::{ImgView, SampleImage};
use crate::frac::Frac;
use crate::frame::{FrameView, Image, RawImageFrame, StillImage, DEFAULT_DELAY_DEN,
    DEFAULT_DELAY_NUM};
use crate::pixels::{lemma_rgba_of_rgb_len, rgb_to_rgba, spec_rgba_of_rgb};

verus! {

/// The raw samples the lossless-JPEG codec decodes these bytes to, with its
/// reported dimensions; `None` when decoding fails.
pub uninterp spec fn spec_jls_decoded(b: Seq<u8>) -> Option<ImgView>;

/// Relies on jpeg_decoder::Decoder::decode and Decoder::info: the decoded
/// samples and the reported dimensions are functions of the bytes alone;
/// after a successful decode the header info is available.
#[verifier::external_body]
fn decode_jls(bytes: &[u8]) -> (r: Result<SampleImage, String>)
    ensures
        r is Ok <==> spec_jls_decoded(bytes@) is Some,
        r is Ok ==> r->Ok_0@ == spec_jls_decoded(bytes@)->0,
{
    let mut decoder = jpeg_decoder::Decoder::new(std::io::Cursor::new(bytes));
    let samples = decoder.decode().map_err(|e| format!("{e}"))?;
    let info = decoder.info().ok_or_else(|| String::from("missing header info"))?;
    Ok(SampleImage { width: info.width as usize, height: info.height as usize, samples })
}

/// What the lossless-JPEG stage yields: the decoded RGB samples expanded to a
/// single RGBA frame; `None` when decoding fails, the dimensions do not fit a
/// frame, or the sample count is not three bytes per pixel.
pub open spec fn spec_jls_visual(b: Seq<u8>) -> Option<Seq<FrameView>> {
    match spec_jls_decoded(b) {
        None => None,
        Some(s) => {
            if s.width <= u32::MAX && s.height <= u32::MAX && s.pixels.len() == 3 * s.width
                * s.height {
                Some(
                    seq![
                        FrameView {
                            width: s.width,
                            height: s.height,
                            pixels: spec_rgba_of_rgb(s.pixels),
                            delay_num: DEFAULT_DELAY_NUM as int,
                            delay_den: DEFAULT_DELAY_DEN as int,
                        },
                    ],
                )
            } else {
                None
            }
        },
    }
}

/// Turns codec-reported RGB samples into a well-formed still visual, checking
/// that the buffer holds exactly three bytes per reported pixel.
pub(crate) fn still_of_rgb_samples(s: SampleImage) -> (r: Result<Image, String>)
    ensures
        r is Ok <==> (s@.width <= u32::MAX && s@.height <= u32::MAX && s@.pixels.len() == 3
            * s@.width * s@.height),
        r is Ok ==> r->Ok_0.wf() && r->Ok_0@ == seq![
            FrameView {
                width: s@.width,
                height: s@.height,
                pixels: spec_rgba_of_rgb(s@.pixels),
                delay_num: DEFAULT_DELAY_NUM as int,
                delay_den: DEFAULT_DELAY_DEN as int,
            },
        ],
{
    let slen = s.samples.len();
    proof {
        assert(s@.pixels.len() <= usize::MAX);
    }
    if s.width > u32::MAX as usize || s.height > u32::MAX as usize {
        return Err(String::new());
    }
    let wh = match s.width.checked_mul(s.height) {
        Some(v) => v,
        None => {
            proof {
                assert(s@.pixels.len() <= usize::MAX);
                assert(s@.width * s@.height > usize::MAX ==> 3 * s@.width * s@.height
                    != s@.pixels.len()) by (nonlinear_arith)
                    requires
                        s@.pixels.len() <= usize::MAX,
                        s@.width >= 0,
                        s@.height >= 0,
                ;
            }
            return Err(String::new());
        },
    };
    let three = match wh.checked_mul(3) {
        Some(v) => v,
        None => {
            proof {
                assert(3 * s@.width * s@.height > usize::MAX ==> 3 * s@.width * s@.height
                    != s@.pixels.len()) by (nonlinear_arith)
                    requires
                        s@.pixels.len() <= usize::MAX,
                        s@.width >= 0,
                        s@.height >= 0,
                ;
                assert(3 * s@.width * s@.height == (s@.width * s@.height) * 3) by (nonlinear_arith)
                ;
            }
            return Err(String::new());
        },
    };
    if slen != three {
        proof {
            assert(3 * s@.width * s@.height == (s@.width * s@.height) * 3) by (nonlinear_arith);
        }
        return Err(String::new());
    }
    proof {
        assert((s@.width * s@.height) * 3 == 3 * s@.width * s@.height) by (nonlinear_arith);
    }
    let rgba = rgb_to_rgba(s.samples.as_slice());
    proof {
        lemma_rgba_of_rgb_len(s@.pixels);
        assert(spec_rgba_of_rgb(s@.pixels).len() == s@.width * s@.height * 4) by (nonlinear_arith)
            requires
                spec_rgba_of_rgb(s@.pixels).len() == (s@.pixels.len() / 3) * 4,
                s@.pixels.len() == 3 * s@.width * s@.height,
                s@.width >= 0,
                s@.height >= 0,
        ;
    }
    let frame = RawImageFrame {
        width: s.width as u32,
        height: s.height as u32,
        pixels: rgba,
        delay: Frac { num: DEFAULT_DELAY_NUM, den: DEFAULT_DELAY_DEN },
    };
    let image = Image::Still(StillImage { frame });
    Ok(image)
}

/// The lossless-JPEG decode stage.
pub fn load_jpeg_ls(bytes: &[u8]) -> (r: Result<Image, String>)
    ensures
        r is Ok <==> spec_jls_visual(bytes@) is Some,
        r is Ok ==> r->Ok_0.wf() && r->Ok_0@ == spec_jls_visual(bytes@)->0,
{
    let samples = match decode_jls(bytes) {
        Ok(s) => s,
        Err(e) => {
            return Err(e);
        },
    };
    still_of_rgb_samples(samples)
}

} // verus!
