//! The native multi-format decoder stage: standard still decoding by guessed
//! container format, and per-frame extraction (with encoded delays) for the
//! animated GIF, PNG and WebP containers.
//!
//! The decoding itself is done by the `image` crate behind trusted wrappers;
//! everything the wrappers return is normalized and assembled here, verified.

use vstd::prelude::*;

use crate::frac::Frac;
use crate::frame::{FrameView, Image, RawImageFrame, DEFAULT_DELAY_DEN, DEFAULT_DELAY_NUM};

verus! {

/// Mathematical content of one decoded still picture: its dimensions and its
/// RGBA pixel bytes.
#[verifier::ext_equal]
pub ghost struct ImgView {
    pub width: int,
    pub height: int,
    pub pixels: Seq<u8>,
}

/// A still picture as a decoder hands it over: RGBA bytes whose buffer holds
/// at least `width * height` quadruples, not yet normalized.
pub struct CodecImage {
    pub width: u32,
    pub height: u32,
    pub pixels: Vec<u8>,
}

impl View for CodecImage {
    type V = ImgView;

    open spec fn view(&self) -> ImgView {
        ImgView { width: self.width as int, height: self.height as int, pixels: self.pixels@ }
    }
}

/// One animation frame as a decoder hands it over: an unnormalized picture
/// plus the encoded delay as a millisecond ratio (possibly zero or with a
/// zero denominator).
pub struct CodecFrame {
    pub width: u32,
    pub height: u32,
    pub pixels: Vec<u8>,
    pub delay_num: u32,
    pub delay_den: u32,
}

impl View for CodecFrame {
    type V = FrameView;

    open spec fn view(&self) -> FrameView {
        FrameView {
            width: self.width as int,
            height: self.height as int,
            pixels: self.pixels@,
            delay_num: self.delay_num as int,
            delay_den: self.delay_den as int,
        }
    }
}

/// A decoded picture whose samples are not yet RGBA: the raw sample bytes a
/// codec reports together with its dimensions. What one sample row holds
/// depends on the codec that produced it.
pub struct SampleImage {
    pub width: usize,
    pub height: usize,
    pub samples: Vec<u8>,
}

impl View for SampleImage {
    type V = ImgView;

    open spec fn view(&self) -> ImgView {
        ImgView { width: self.width as int, height: self.height as int, pixels: self.samples@ }
    }
}

/// The container family the native decoder recognizes a byte stream as.
#[derive(PartialEq, Eq, Structural, Clone, Copy, Debug)]
pub enum ContainerKind {
    Gif,
    Png,
    Webp,
    Other,
}

/// The container format the `image` crate guesses for these bytes; `None`
/// when it recognizes none.
pub uninterp spec fn spec_guessed_container(b: Seq<u8>) -> Option<ContainerKind>;

/// The still picture the `image` crate decodes these bytes to, converted to
/// RGBA; `None` when decoding fails.
pub uninterp spec fn spec_native_still(b: Seq<u8>) -> Option<ImgView>;

/// The frame sequence the GIF decoder extracts from these bytes; `None` when
/// it fails.
pub uninterp spec fn spec_gif_frames(b: Seq<u8>) -> Option<Seq<FrameView>>;

/// The frame sequence the animated-WebP decoder extracts from these bytes;
/// `None` when it fails.
pub uninterp spec fn spec_webp_frames(b: Seq<u8>) -> Option<Seq<FrameView>>;

/// Whether these bytes hold an animated PNG; `None` when the PNG decoder
/// cannot open them at all.
pub uninterp spec fn spec_png_is_animated(b: Seq<u8>) -> Option<bool>;

/// The frame sequence the animated-PNG decoder extracts from these bytes;
/// `None` when it fails.
pub uninterp spec fn spec_apng_frames(b: Seq<u8>) -> Option<Seq<FrameView>>;

/// The downsized still picture the `image` crate produces for these bytes and
/// this target box via its integral thumbnail filter; `None` when decoding
/// fails.
pub uninterp spec fn spec_native_thumbnail(b: Seq<u8>, size: u32) -> Option<ImgView>;

/// Relies on image::guess_format: the guess depends on the leading bytes
/// alone; container families other than GIF, PNG and WebP are not told apart
/// here.
#[verifier::external_body]
fn guess_container(bytes: &[u8]) -> (r: Option<ContainerKind>)
    ensures
        r == spec_guessed_container(bytes@),
{
    match image::guess_format(bytes) {
        Ok(image::ImageFormat::Gif) => Some(ContainerKind::Gif),
        Ok(image::ImageFormat::Png) => Some(ContainerKind::Png),
        Ok(image::ImageFormat::WebP) => Some(ContainerKind::Webp),
        Ok(_) => Some(ContainerKind::Other),
        Err(_) => None,
    }
}

/// Relies on image::load_from_memory and DynamicImage::into_rgba8: the result
/// is a function of the bytes alone, and an RGBA8 buffer holds at least
/// width * height four-byte pixels.
#[verifier::external_body]
pub(crate) fn decode_native_still(bytes: &[u8]) -> (r: Result<CodecImage, String>)
    ensures
        r is Ok <==> spec_native_still(bytes@) is Some,
        r is Ok ==> r->Ok_0@ == spec_native_still(bytes@)->0,
        r is Ok ==> r->Ok_0@.pixels.len() >= 4 * r->Ok_0@.width * r->Ok_0@.height,
{
    let img = image::load_from_memory(bytes).map_err(|e| format!("{e}"))?;
    let rgba = img.into_rgba8();
    Ok(CodecImage { width: rgba.width(), height: rgba.height(), pixels: rgba.into_raw() })
}

/// Relies on image::load_from_memory and DynamicImage::thumbnail: the
/// downsized result is a function of the bytes and the target box alone.
#[verifier::external_body]
pub(crate) fn decode_native_thumbnail(bytes: &[u8], size: u32) -> (r: Result<CodecImage, String>)
    ensures
        r is Ok <==> spec_native_thumbnail(bytes@, size) is Some,
        r is Ok ==> r->Ok_0@ == spec_native_thumbnail(bytes@, size)->0,
        r is Ok ==> r->Ok_0@.pixels.len() >= 4 * r->Ok_0@.width * r->Ok_0@.height,
{
    let img = image::load_from_memory(bytes).map_err(|e| format!("{e}"))?;
    let thumb = img.thumbnail(size, size);
    let rgba = thumb.into_rgba8();
    Ok(CodecImage { width: rgba.width(), height: rgba.height(), pixels: rgba.into_raw() })
}

/// Relies on image::codecs::gif::GifDecoder with AnimationDecoder::into_frames:
/// the frame sequence and each frame's encoded delay are functions of the
/// bytes alone; each frame buffer is RGBA8 with at least width * height
/// four-byte pixels.
#[verifier::external_body]
fn decode_gif_frames(bytes: &[u8]) -> (r: Result<Vec<CodecFrame>, String>)
    ensures
        r is Ok <==> spec_gif_frames(bytes@) is Some,
        r is Ok ==> r->Ok_0@.map_values(|f: CodecFrame| f@) == spec_gif_frames(bytes@)->0,
        r is Ok ==> forall|i: int|
            0 <= i < r->Ok_0@.len() ==> (#[trigger] r->Ok_0@[i])@.pixels.len() >= 4
                * r->Ok_0@[i]@.width * r->Ok_0@[i]@.height,
{
    let dec = image::codecs::gif::GifDecoder::new(std::io::Cursor::new(bytes)).map_err(|e| format!("{e}"))?;
    let frames = image::AnimationDecoder::into_frames(dec).collect_frames().map_err(|e| format!("{e}"))?;
    Ok(frames.into_iter().map(|f| {
        let (delay_num, delay_den) = f.delay().numer_denom_ms();
        let buf = f.into_buffer();
        CodecFrame { width: buf.width(), height: buf.height(), pixels: buf.into_raw(), delay_num, delay_den }
    }).collect())
}

/// Relies on image::codecs::webp::WebPDecoder with
/// AnimationDecoder::into_frames, as the GIF wrapper does.
#[verifier::external_body]
fn decode_webp_frames(bytes: &[u8]) -> (r: Result<Vec<CodecFrame>, String>)
    ensures
        r is Ok <==> spec_webp_frames(bytes@) is Some,
        r is Ok ==> r->Ok_0@.map_values(|f: CodecFrame| f@) == spec_webp_frames(bytes@)->0,
        r is Ok ==> forall|i: int|
            0 <= i < r->Ok_0@.len() ==> (#[trigger] r->Ok_0@[i])@.pixels.len() >= 4
                * r->Ok_0@[i]@.width * r->Ok_0@[i]@.height,
{
    let dec = image::codecs::webp::WebPDecoder::new(std::io::Cursor::new(bytes)).map_err(|e| format!("{e}"))?;
    let frames = image::AnimationDecoder::into_frames(dec).collect_frames().map_err(|e| format!("{e}"))?;
    Ok(frames.into_iter().map(|f| {
        let (delay_num, delay_den) = f.delay().numer_denom_ms();
        let buf = f.into_buffer();
        CodecFrame { width: buf.width(), height: buf.height(), pixels: buf.into_raw(), delay_num, delay_den }
    }).collect())
}

/// Relies on image::codecs::png::PngDecoder::is_apng: whether a PNG stream
/// carries an animation is a function of the bytes alone.
#[verifier::external_body]
fn png_is_animated(bytes: &[u8]) -> (r: Result<bool, String>)
    ensures
        r is Ok <==> spec_png_is_animated(bytes@) is Some,
        r is Ok ==> r->Ok_0 == spec_png_is_animated(bytes@)->0,
{
    let dec = image::codecs::png::PngDecoder::new(std::io::Cursor::new(bytes)).map_err(|e| format!("{e}"))?;
    dec.is_apng().map_err(|e| format!("{e}"))
}

/// Relies on image::codecs::png::PngDecoder::apng with
/// AnimationDecoder::into_frames, as the GIF wrapper does.
#[verifier::external_body]
fn decode_apng_frames(bytes: &[u8]) -> (r: Result<Vec<CodecFrame>, String>)
    ensures
        r is Ok <==> spec_apng_frames(bytes@) is Some,
        r is Ok ==> r->Ok_0@.map_values(|f: CodecFrame| f@) == spec_apng_frames(bytes@)->0,
        r is Ok ==> forall|i: int|
            0 <= i < r->Ok_0@.len() ==> (#[trigger] r->Ok_0@[i])@.pixels.len() >= 4
                * r->Ok_0@[i]@.width * r->Ok_0@[i]@.height,
{
    let dec = image::codecs::png::PngDecoder::new(std::io::Cursor::new(bytes)).map_err(|e| format!("{e}"))?;
    let apng = dec.apng().map_err(|e| format!("{e}"))?;
    let frames = image::AnimationDecoder::into_frames(apng).collect_frames().map_err(|e| format!("{e}"))?;
    Ok(frames.into_iter().map(|f| {
        let (delay_num, delay_den) = f.delay().numer_denom_ms();
        let buf = f.into_buffer();
        CodecFrame { width: buf.width(), height: buf.height(), pixels: buf.into_raw(), delay_num, delay_den }
    }).collect())
}

/// A delay is usable when both parts of the ratio are nonzero; otherwise the
/// default delay takes its place.
pub open spec fn spec_normalize_delay(num: int, den: int) -> Frac {
    if num == 0 || den == 0 {
        Frac { num: DEFAULT_DELAY_NUM, den: DEFAULT_DELAY_DEN }
    } else if 0 <= num <= u64::MAX && 0 <= den <= u64::MAX {
        Frac { num: num as u64, den: den as u64 }
    } else {
        Frac { num: DEFAULT_DELAY_NUM, den: DEFAULT_DELAY_DEN }
    }
}

/// One decoder-supplied frame after normalization: the pixel buffer cut to
/// exactly width * height RGBA quadruples, and a zero or unrepresentable
/// delay replaced by the default.
pub open spec fn spec_normalize_frame(f: FrameView) -> FrameView {
    FrameView {
        width: f.width,
        height: f.height,
        pixels: f.pixels.take(f.width * f.height * 4),
        delay_num: spec_normalize_delay(f.delay_num, f.delay_den).num as int,
        delay_den: spec_normalize_delay(f.delay_num, f.delay_den).den as int,
    }
}

/// The frame a still picture yields: its pixels cut to size, with the
/// default display delay.
pub open spec fn spec_frame_of_still(img: ImgView) -> FrameView {
    FrameView {
        width: img.width,
        height: img.height,
        pixels: img.pixels.take(img.width * img.height * 4),
        delay_num: DEFAULT_DELAY_NUM as int,
        delay_den: DEFAULT_DELAY_DEN as int,
    }
}

fn normalize_delay(num: u32, den: u32) -> (r: Frac)
    ensures
        r == spec_normalize_delay(num as int, den as int),
        r.wf(),
        r.is_positive(),
{
    if num == 0 || den == 0 {
        Frac { num: DEFAULT_DELAY_NUM, den: DEFAULT_DELAY_DEN }
    } else {
        Frac { num: num as u64, den: den as u64 }
    }
}

/// Cuts a decoder-supplied frame down to its exact pixel budget and gives it
/// a usable delay.
fn normalize_frame(f: CodecFrame) -> (r: RawImageFrame)
    requires
        f@.pixels.len() >= 4 * f@.width * f@.height,
    ensures
        r@ == spec_normalize_frame(f@),
        r.wf(),
{
    let w = f.width as usize;
    let h = f.height as usize;
    let mut pixels = f.pixels;
    let plen = pixels.len();
    proof {
        assert(w * h * 4 <= plen) by (nonlinear_arith)
            requires
                plen >= 4 * w * h,
        ;
        assert(w * h <= plen) by (nonlinear_arith)
            requires
                w * h * 4 <= plen,
                0 <= w,
                0 <= h,
        ;
    }
    let need = w * h * 4;
    pixels.truncate(need);
    proof {
        assert(pixels@ == f@.pixels.take(f@.width * f@.height * 4));
    }
    RawImageFrame {
        width: f.width,
        height: f.height,
        pixels,
        delay: normalize_delay(f.delay_num, f.delay_den),
    }
}

/// Wraps a decoded still picture as a single normalized frame carrying the
/// default delay.
pub(crate) fn frame_of_still(img: CodecImage) -> (r: RawImageFrame)
    requires
        img@.pixels.len() >= 4 * img@.width * img@.height,
    ensures
        r@ == spec_frame_of_still(img@),
        r.wf(),
{
    let w = img.width as usize;
    let h = img.height as usize;
    let mut pixels = img.pixels;
    let plen = pixels.len();
    proof {
        assert(w * h * 4 <= plen) by (nonlinear_arith)
            requires
                plen >= 4 * w * h,
        ;
        assert(w * h <= plen) by (nonlinear_arith)
            requires
                w * h * 4 <= plen,
                0 <= w,
                0 <= h,
        ;
    }
    let need = w * h * 4;
    pixels.truncate(need);
    RawImageFrame {
        width: img.width,
        height: img.height,
        pixels,
        delay: Frac { num: DEFAULT_DELAY_NUM, den: DEFAULT_DELAY_DEN },
    }
}

/// The container frames the native stage extracts before still decoding:
/// `None` when the responsible animation decoder fails (which fails the whole
/// stage), `Some(empty)` for containers without extracted animation frames.
pub open spec fn spec_container_frames(b: Seq<u8>) -> Option<Seq<FrameView>> {
    match spec_guessed_container(b) {
        Some(ContainerKind::Gif) => spec_gif_frames(b),
        Some(ContainerKind::Webp) => spec_webp_frames(b),
        Some(ContainerKind::Png) => match spec_png_is_animated(b) {
            Some(true) => spec_apng_frames(b),
            Some(false) => Some(Seq::empty()),
            None => None,
        },
        Some(ContainerKind::Other) => Some(Seq::empty()),
        None => Some(Seq::empty()),
    }
}

/// What the whole native stage yields for these bytes: the normalized frame
/// sequence, or `None` when the stage fails. The still decode must succeed in
/// every case; its picture becomes the single frame when the container
/// carries no animation.
pub open spec fn spec_native_visual(b: Seq<u8>) -> Option<Seq<FrameView>> {
    match spec_container_frames(b) {
        None => None,
        Some(fs) => match spec_native_still(b) {
            None => None,
            Some(img) => {
                if fs.len() == 0 {
                    Some(seq![spec_frame_of_still(img)])
                } else {
                    Some(fs.map_values(|f: FrameView| spec_normalize_frame(f)))
                }
            },
        },
    }
}

/// Decodes container animation frames for the native stage, when the guessed
/// container is one of the animated families.
fn container_frames(bytes: &[u8]) -> (r: Result<Vec<CodecFrame>, String>)
    ensures
        r is Ok <==> spec_container_frames(bytes@) is Some,
        r is Ok ==> r->Ok_0@.map_values(|f: CodecFrame| f@) == spec_container_frames(bytes@)->0,
        r is Ok ==> forall|i: int|
            0 <= i < r->Ok_0@.len() ==> (#[trigger] r->Ok_0@[i])@.pixels.len() >= 4
                * r->Ok_0@[i]@.width * r->Ok_0@[i]@.height,
{
    let empty_ok: Result<Vec<CodecFrame>, String> = Ok(Vec::new());
    proof {
        assert(Seq::<CodecFrame>::empty().map_values(|f: CodecFrame| f@) =~= Seq::<
            FrameView,
        >::empty());
    }
    match guess_container(bytes) {
        Some(ContainerKind::Gif) => decode_gif_frames(bytes),
        Some(ContainerKind::Webp) => decode_webp_frames(bytes),
        Some(ContainerKind::Png) => {
            match png_is_animated(bytes) {
                Err(e) => Err(e),
                Ok(true) => decode_apng_frames(bytes),
                Ok(false) => empty_ok,
            }
        },
        Some(ContainerKind::Other) => empty_ok,
        None => empty_ok,
    }
}

/// The native multi-format decode stage: extracts every animation frame with
/// its encoded delay for GIF, animated-PNG and animated-WebP containers, and
/// otherwise decodes one still picture; a single frame collapses to a still
/// visual.
pub fn load_native(bytes: &[u8]) -> (r: Result<Image, String>)
    ensures
        r is Ok <==> spec_native_visual(bytes@) is Some,
        r is Ok ==> r->Ok_0.wf() && r->Ok_0@ == spec_native_visual(bytes@)->0,
{
    let frames = match container_frames(bytes) {
        Ok(fs) => fs,
        Err(e) => {
            return Err(e);
        },
    };
    let still = match decode_native_still(bytes) {
        Ok(img) => img,
        Err(e) => {
            return Err(e);
        },
    };
    let ghost gframes = frames@.map_values(|f: CodecFrame| f@);
    let mut normalized: Vec<RawImageFrame> = Vec::new();
    if frames.len() == 0 {
        normalized.push(frame_of_still(still));
        proof {
            assert(normalized@.map_values(|f: RawImageFrame| f@) =~= seq![
                spec_frame_of_still(still@),
            ]);
        }
    } else {
        let mut rest = frames;
        while rest.len() > 0
            invariant
                normalized@.len() + rest@.len() == gframes.len(),
                rest@.map_values(|f: CodecFrame| f@) =~= gframes.skip(normalized@.len() as int),
                normalized@.map_values(|f: RawImageFrame| f@) =~= gframes.take(
                    normalized@.len() as int,
                ).map_values(|f: FrameView| spec_normalize_frame(f)),
                forall|i: int| 0 <= i < normalized@.len() ==> (#[trigger] normalized@[i]).wf(),
                forall|i: int|
                    0 <= i < rest@.len() ==> (#[trigger] rest@[i])@.pixels.len() >= 4
                        * rest@[i]@.width * rest@[i]@.height,
            decreases rest@.len(),
        {
            let ghost k = normalized@.len() as int;
            let ghost prev = rest@;
            let f = rest.remove(0);
            proof {
                assert(prev.map_values(|fr: CodecFrame| fr@)[0] == gframes.skip(k)[0]);
                assert(gframes.skip(k)[0] == gframes[k]);
                assert(f@ == gframes[k]);
                assert forall|i: int| 0 <= i < rest@.len() implies rest@.map_values(
                    |fr: CodecFrame| fr@,
                )[i] == #[trigger] gframes.skip(k + 1)[i] by {
                    assert(rest@[i] == prev[i + 1]);
                    assert(prev.map_values(|fr: CodecFrame| fr@)[i + 1] == gframes.skip(k)[i + 1]);
                    assert(gframes.skip(k)[i + 1] == gframes[k + 1 + i]);
                    assert(gframes.skip(k + 1)[i] == gframes[k + 1 + i]);
                }
                assert(rest@.map_values(|fr: CodecFrame| fr@) =~= gframes.skip(k + 1));
            }
            let nf = normalize_frame(f);
            normalized.push(nf);
            proof {
                assert(gframes.take(k + 1) =~= gframes.take(k).push(gframes[k]));
                assert(normalized@.map_values(|fr: RawImageFrame| fr@) =~= gframes.take(
                    k,
                ).map_values(|fr: FrameView| spec_normalize_frame(fr)).push(
                    spec_normalize_frame(gframes[k]),
                ));
                assert(gframes.take(k + 1).map_values(|fr: FrameView| spec_normalize_frame(fr))
                    =~= gframes.take(k).map_values(|fr: FrameView| spec_normalize_frame(fr)).push(
                    spec_normalize_frame(gframes[k]),
                ));
            }
        }
        proof {
            assert(gframes.take(gframes.len() as int) =~= gframes);
        }
    }
    let r = Image::from_frames(normalized);
    match r {
        Some(img) => Ok(img),
        None => {
            proof {
                assert(false);
            }
            Err(String::new())
        },
    }
}

} // verus!
