//! Core of a media gallery: decoding of still images, animated images and
//! video frames into normalized RGBA pixel buffers, the ordered decode
//! cascade across specialized codecs, aspect-fit sizing helpers, and the
//! video playback state machine.

use vstd::prelude::*;

pub mod codec_bilevel;
pub mod codec_dicom;
pub mod codec_jpegls;
pub mod codec_native;
pub mod codec_raw;
pub mod codec_rpgmv;
pub mod entry;
pub mod frac;
pub mod frame;
pub mod paths;
pub mod pixels;
pub mod sizing;
pub mod sniff;
pub mod timebase;
pub mod timefmt;
pub mod video;

verus! {

/// Coarse kind of a gallery entry, decided from its path and decoded content.
#[derive(PartialEq, Eq, Structural, Clone, Copy, Debug)]
pub enum MediaType {
    ImageStill,
    ImageAnimated,
    Video,
}

} // verus!
