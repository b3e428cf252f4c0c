//! The decode dispatcher and the gallery's per-image entry: an ordered
//! cascade of decode strategies (native multi-format decoding, then — by
//! sniffed format — DICOM, legacy-engine, lossless-JPEG, bilevel-document and
//! sensor-raw decoding) tried until one succeeds, with structured failure
//! accumulation; and the animation pacing that advances the current frame
//! against a caller-supplied clock.

use vstd::prelude::*;

use crate::codec_bilevel::{load_jbig, spec_bilevel_visual};
use crate::codec_dicom::{load_dicom, spec_dicom_visual};
use crate::codec_jpegls::{load_jpeg_ls, spec_jls_visual};
use crate::codec_native::{decode_native_thumbnail, frame_of_still, load_native,
    spec_frame_of_still, spec_native_thumbnail, spec_native_visual};
use crate::codec_raw::{load_raw, spec_raw_visual};
use crate::codec_rpgmv::{load_rpgmv, spec_rpgmv_visual};
use crate::frame::{FrameView, Image, RawImageFrame, StillImage};
use crate::paths::{is_image, spec_is_image};
use crate::sniff::{sniff_format, spec_sniff_format, ImageFormat};
use crate::MediaType;

verus! {

/// One stage of the decode cascade.
#[derive(PartialEq, Eq, Structural, Clone, Copy, Debug)]
pub enum DecodeStage {
    Native,
    Dicom,
    Rpgmv,
    JpegLs,
    Bilevel,
    SensorRaw,
}

/// One failed decode attempt: the stage that ran and the message it failed
/// with.
#[derive(Debug)]
pub struct StageFailure {
    pub stage: DecodeStage,
    pub message: String,
}

/// An exhaustive decode failure: every attempted stage with its cause, in the
/// order the cascade ran them.
#[derive(Debug)]
pub struct DecodeFailure {
    pub attempts: Vec<StageFailure>,
}

/// What the specialized decoders yield once the native stage has failed: the
/// stage the sniffed format selects; an unrecognized format falls from the
/// bilevel-document stage through to the sensor-raw stage.
pub open spec fn spec_specialized_visual(b: Seq<u8>) -> Option<Seq<FrameView>> {
    match spec_sniff_format(b) {
        ImageFormat::Dicom => spec_dicom_visual(b),
        ImageFormat::Rpgmv => spec_rpgmv_visual(b),
        ImageFormat::JpegLs => spec_jls_visual(b),
        ImageFormat::JBig1 => spec_bilevel_visual(b),
        ImageFormat::JBig2 => spec_bilevel_visual(b),
        ImageFormat::Unknown => match spec_bilevel_visual(b) {
            Some(v) => Some(v),
            None => spec_raw_visual(b),
        },
    }
}

/// What the whole decode cascade yields for these bytes: the native stage's
/// result when it succeeds, otherwise the specialized stage the sniffed
/// format selects.
pub open spec fn spec_cascade(b: Seq<u8>) -> Option<Seq<FrameView>> {
    match spec_native_visual(b) {
        Some(v) => Some(v),
        None => spec_specialized_visual(b),
    }
}

/// The stages the cascade runs, in order, when every one of them fails.
pub open spec fn spec_failed_stages(b: Seq<u8>) -> Seq<DecodeStage> {
    seq![DecodeStage::Native] + match spec_sniff_format(b) {
        ImageFormat::Dicom => seq![DecodeStage::Dicom],
        ImageFormat::Rpgmv => seq![DecodeStage::Rpgmv],
        ImageFormat::JpegLs => seq![DecodeStage::JpegLs],
        ImageFormat::JBig1 => seq![DecodeStage::Bilevel],
        ImageFormat::JBig2 => seq![DecodeStage::Bilevel],
        ImageFormat::Unknown => seq![DecodeStage::Bilevel, DecodeStage::SensorRaw],
    }
}

/// Cascade ordering: the native decoder is always attempted first. Whenever
/// it succeeds its result is the cascade's result, whatever the magic bytes
/// say — a file carrying the DICOM marker that is also natively decodable is
/// decoded natively; the DICOM stage runs only after a native failure.
pub proof fn lemma_cascade_native_first(b: Seq<u8>)
    ensures
        spec_native_visual(b) is Some ==> spec_cascade(b) == spec_native_visual(b),
        spec_native_visual(b) is None && spec_sniff_format(b) == ImageFormat::Dicom
            ==> spec_cascade(b) == spec_dicom_visual(b),
{
}

/// Decode determinism: the cascade's outcome is a function of the file bytes
/// alone, so decoding the same bytes twice yields byte-identical frame
/// sequences.
pub proof fn lemma_decode_deterministic(b: Seq<u8>, v1: Image, v2: Image)
    requires
        Some(v1@) == spec_cascade(b),
        Some(v2@) == spec_cascade(b),
    ensures
        v1@ == v2@,
{
}

/// What the thumbnail cascade yields: for recognized image paths, the native
/// thumbnail-capable decode first (downsized to the target box), then the
/// specialized-decoder cascade at full resolution. Paths without a recognized
/// image extension are left to video-frame extraction, outside this stage.
pub open spec fn spec_thumbnail(p: Seq<char>, b: Seq<u8>, size: u32) -> Option<Seq<FrameView>> {
    if !spec_is_image(p) {
        None
    } else {
        match spec_native_thumbnail(b, size) {
            Some(img) => Some(seq![spec_frame_of_still(img)]),
            None => spec_specialized_visual(b),
        }
    }
}

/// A decoded gallery entry: the visual, its media classification, and the
/// animation playback cursor (current frame index and the wall-clock instant
/// of the last frame advance) that paces frame advancement independently of
/// the render loop's frequency.
pub struct ImageEntry {
    pub is_animated: bool,
    pub media_type: MediaType,
    pub path: String,
    pub image: Image,
    pub last_frame_time_ms: u64,
    pub current_frame_index: usize,
}

impl ImageEntry {
    /// The visual is well formed, the cursor points at one of its frames, and
    /// the classification matches the visual's shape.
    pub open spec fn wf(self) -> bool {
        &&& self.image.wf()
        &&& self.current_frame_index < self.image@.len()
        &&& self.is_animated == (self.image matches Image::Animated(_))
        &&& self.media_type == if self.is_animated {
            MediaType::ImageAnimated
        } else {
            MediaType::ImageStill
        }
    }

    /// Classifies file bytes into a coarse format tag by magic bytes at fixed
    /// offsets, in priority order.
    pub fn try_guess_format(bytes: &[u8]) -> (r: ImageFormat)
        ensures
            r == spec_sniff_format(bytes@),
    {
        sniff_format(bytes)
    }

    /// The native multi-format decode stage alone.
    pub fn load_image_native(bytes: &[u8]) -> (r: Result<Image, String>)
        ensures
            r is Ok <==> spec_native_visual(bytes@) is Some,
            r is Ok ==> r->Ok_0.wf() && r->Ok_0@ == spec_native_visual(bytes@)->0,
    {
        load_native(bytes)
    }

    /// The decode dispatcher: runs the ordered cascade until one stage
    /// succeeds, or reports every attempted stage with its cause.
    pub fn load_image(bytes: &[u8]) -> (r: Result<Image, DecodeFailure>)
        ensures
            r is Ok <==> spec_cascade(bytes@) is Some,
            r is Ok ==> r->Ok_0.wf() && r->Ok_0@ == spec_cascade(bytes@)->0,
            r is Err ==> r->Err_0.attempts@.map_values(|a: StageFailure| a.stage)
                == spec_failed_stages(bytes@),
    {
        let native_error = match load_native(bytes) {
            Ok(img) => {
                return Ok(img);
            },
            Err(e) => e,
        };
        let mut attempts: Vec<StageFailure> = Vec::new();
        attempts.push(StageFailure { stage: DecodeStage::Native, message: native_error });
        let format = sniff_format(bytes);
        let specialized: Result<Image, String> = match format {
            ImageFormat::Dicom => load_dicom(bytes),
            ImageFormat::Rpgmv => load_rpgmv(bytes),
            ImageFormat::JpegLs => load_jpeg_ls(bytes),
            ImageFormat::JBig1 => load_jbig(bytes),
            ImageFormat::JBig2 => load_jbig(bytes),
            ImageFormat::Unknown => {
                match load_jbig(bytes) {
                    Ok(img) => Ok(img),
                    Err(bilevel_error) => {
                        attempts.push(
                            StageFailure { stage: DecodeStage::Bilevel, message: bilevel_error },
                        );
                        match load_raw(bytes) {
                            Ok(img) => Ok(img),
                            Err(raw_error) => {
                                attempts.push(
                                    StageFailure {
                                        stage: DecodeStage::SensorRaw,
                                        message: raw_error,
                                    },
                                );
                                proof {
                                    assert(attempts@.map_values(|a: StageFailure| a.stage)
                                        =~= spec_failed_stages(bytes@));
                                }
                                return Err(DecodeFailure { attempts });
                            },
                        }
                    },
                }
            },
        };
        match specialized {
            Ok(img) => Ok(img),
            Err(e) => {
                let stage = match format {
                    ImageFormat::Dicom => DecodeStage::Dicom,
                    ImageFormat::Rpgmv => DecodeStage::Rpgmv,
                    ImageFormat::JpegLs => DecodeStage::JpegLs,
                    ImageFormat::JBig1 => DecodeStage::Bilevel,
                    ImageFormat::JBig2 => DecodeStage::Bilevel,
                    ImageFormat::Unknown => DecodeStage::SensorRaw,
                };
                attempts.push(StageFailure { stage, message: e });
                proof {
                    assert(attempts@.map_values(|a: StageFailure| a.stage) =~= spec_failed_stages(
                        bytes@,
                    ));
                }
                Err(DecodeFailure { attempts })
            },
        }
    }

    /// The thumbnail cascade: a native downsized decode for recognized image
    /// paths, then the specialized decoders at full resolution. Paths that
    /// are not recognized images are left to the caller's video-frame
    /// extraction; a total failure yields no thumbnail and the caller
    /// substitutes a placeholder.
    pub fn load_thumbnail(path: &str, bytes: &[u8], size: u32) -> (r: Option<Image>)
        ensures
            r is Some <==> spec_thumbnail(path@, bytes@, size) is Some,
            r is Some ==> r->0.wf() && r->0@ == spec_thumbnail(path@, bytes@, size)->0,
    {
        if !is_image(path) {
            return None;
        }
        match decode_native_thumbnail(bytes, size) {
            Ok(img) => {
                let frame = frame_of_still(img);
                let image = Image::Still(StillImage { frame });
                proof {
                    assert(image@ =~= spec_thumbnail(path@, bytes@, size)->0);
                }
                return Some(image);
            },
            Err(_) => {},
        }
        let specialized: Result<Image, String> = match sniff_format(bytes) {
            ImageFormat::Dicom => load_dicom(bytes),
            ImageFormat::Rpgmv => load_rpgmv(bytes),
            ImageFormat::JpegLs => load_jpeg_ls(bytes),
            ImageFormat::JBig1 => load_jbig(bytes),
            ImageFormat::JBig2 => load_jbig(bytes),
            ImageFormat::Unknown => {
                match load_jbig(bytes) {
                    Ok(img) => Ok(img),
                    Err(_) => load_raw(bytes),
                }
            },
        };
        match specialized {
            Ok(img) => Some(img),
            Err(_) => None,
        }
    }

    /// Decodes a file's bytes into a gallery entry; a file that exhausts the
    /// cascade yields none.
    pub fn new(path: String, bytes: &[u8], now_ms: u64) -> (r: Option<ImageEntry>)
        ensures
            r is Some <==> spec_cascade(bytes@) is Some,
            r is Some ==> {
                let e = r->0;
                &&& e.wf()
                &&& e.image@ == spec_cascade(bytes@)->0
                &&& e.path@ == path@
                &&& e.current_frame_index == 0
                &&& e.last_frame_time_ms == now_ms
                &&& e.is_animated == (spec_cascade(bytes@)->0.len() >= 2)
            },
    {
        let image = match Self::load_image(bytes) {
            Ok(img) => img,
            Err(_) => {
                return None;
            },
        };
        let is_animated = match &image {
            Image::Animated(_) => true,
            Image::Still(_) => false,
        };
        proof {
            crate::frame::lemma_animated_never_singleton(image);
        }
        Some(
            ImageEntry {
                is_animated,
                media_type: if is_animated {
                    MediaType::ImageAnimated
                } else {
                    MediaType::ImageStill
                },
                path,
                image,
                last_frame_time_ms: now_ms,
                current_frame_index: 0,
            },
        )
    }

    /// How many frames the entry's visual holds.
    pub fn get_number_of_frames(&self) -> (r: usize)
        ensures
            r == self.image@.len(),
    {
        self.image.frame_count()
    }

    /// Whether the current frame's display delay has elapsed at `now_ms`,
    /// comparing the elapsed wall-clock milliseconds against the frame's
    /// rational delay; a clock that moved backwards counts as no elapsed
    /// time. A still entry uses a one-second refresh period.
    pub open spec fn spec_due(self, now_ms: u64) -> bool {
        let elapsed = if now_ms >= self.last_frame_time_ms {
            now_ms - self.last_frame_time_ms
        } else {
            0
        };
        if self.is_animated {
            let f = self.image@[self.current_frame_index as int];
            elapsed * f.delay_den >= f.delay_num
        } else {
            elapsed >= 1000
        }
    }

    /// The entry state after one render tick at `now_ms`: when the current
    /// frame's delay has elapsed, an animated entry advances its cursor
    /// cyclically and records the tick as the last advance; a still entry
    /// only refreshes its timestamp. Otherwise nothing changes.
    pub open spec fn spec_ticked(self, now_ms: u64) -> ImageEntry {
        if self.spec_due(now_ms) {
            ImageEntry {
                last_frame_time_ms: now_ms,
                current_frame_index: if self.is_animated {
                    (((self.current_frame_index + 1) as int) % (self.image@.len() as int)) as usize
                } else {
                    self.current_frame_index
                },
                ..self
            }
        } else {
            self
        }
    }

    /// One render tick: advances the animation cursor when the current
    /// frame's delay has elapsed and returns the index of the frame to
    /// present, so repeated calls before the next advance re-present the same
    /// frame without re-decoding.
    pub fn get_current_frame(&mut self, now_ms: u64) -> (r: usize)
        requires
            old(self).wf(),
        ensures
            final(self).wf(),
            *final(self) == old(self).spec_ticked(now_ms),
            r == final(self).current_frame_index,
    {
        let elapsed: u64 = if now_ms >= self.last_frame_time_ms {
            now_ms - self.last_frame_time_ms
        } else {
            0
        };
        match &self.image {
            Image::Still(_) => {
                if elapsed >= 1000 {
                    self.last_frame_time_ms = now_ms;
                }
            },
            Image::Animated(a) => {
                proof {
                    assert(self.image@.len() == a.frames@.len());
                    assert((elapsed as u128) * (a.frames@[self.current_frame_index as int]@.delay_den
                        as u128) <= u128::MAX) by (nonlinear_arith)
                        requires
                            elapsed <= u64::MAX,
                            a.frames@[self.current_frame_index as int]@.delay_den <= u64::MAX,
                            self.current_frame_index < a.frames@.len(),
                    ;
                }
                let n = a.frames.len();
                let f = &a.frames[self.current_frame_index];
                let due = (elapsed as u128) * (f.delay.den as u128) >= f.delay.num as u128;
                if due {
                    self.last_frame_time_ms = now_ms;
                    self.current_frame_index = (self.current_frame_index + 1) % n;
                }
            },
        }
        self.current_frame_index
    }

    /// The frame the entry currently presents.
    pub fn current_frame(&self) -> (r: &RawImageFrame)
        requires
            self.wf(),
        ensures
            r@ == self.image@[self.current_frame_index as int],
    {
        match &self.image {
            Image::Still(s) => &s.frame,
            Image::Animated(a) => &a.frames[self.current_frame_index],
        }
    }
}

} // verus!
