//! The normalized in-memory representation of decoded visual content:
//! a single still frame, or an ordered sequence of frames each carrying a
//! display delay.

use vstd::prelude::*;

use crate::frac::Frac;

verus! {

/// Numerator of the default animation delay: 8333/100 ms (a 12 fps default),
/// used when a container omits a usable per-frame delay.
pub const DEFAULT_DELAY_NUM: u64 = 8333;

/// Denominator of the default animation delay.
pub const DEFAULT_DELAY_DEN: u64 = 100;

/// Mathematical content of one normalized frame: its dimensions, its RGBA
/// pixel bytes, and its display delay in rational milliseconds.
#[verifier::ext_equal]
pub ghost struct FrameView {
    pub width: int,
    pub height: int,
    pub pixels: Seq<u8>,
    pub delay_num: int,
    pub delay_den: int,
}

impl FrameView {
    /// The pixel buffer holds exactly width x height RGBA quadruples and the
    /// delay is a positive rational.
    pub open spec fn wf(self) -> bool {
        &&& self.pixels.len() == self.width * self.height * 4
        &&& 0 <= self.width
        &&& 0 <= self.height
        &&& self.delay_num > 0
        &&& self.delay_den > 0
    }
}

/// One decoded frame, normalized to RGBA with 8 bits per channel, row-major,
/// without stride padding, plus the duration it should remain visible.
#[derive(Debug, PartialEq)]
pub struct RawImageFrame {
    pub width: u32,
    pub height: u32,
    pub pixels: Vec<u8>,
    pub delay: Frac,
}

impl View for RawImageFrame {
    type V = FrameView;

    open spec fn view(&self) -> FrameView {
        FrameView {
            width: self.width as int,
            height: self.height as int,
            pixels: self.pixels@,
            delay_num: self.delay.num as int,
            delay_den: self.delay.den as int,
        }
    }
}

impl RawImageFrame {
    pub open spec fn wf(self) -> bool {
        self@.wf()
    }
}

/// A decoded still image: exactly one frame.
#[derive(Debug, PartialEq)]
pub struct StillImage {
    pub frame: RawImageFrame,
}

impl StillImage {
    pub open spec fn wf(self) -> bool {
        self.frame.wf()
    }

    pub fn from_raw_frame(frame: RawImageFrame) -> (r: StillImage)
        requires
            frame.wf(),
        ensures
            r.wf(),
            r.frame == frame,
    {
        StillImage { frame }
    }

    /// Builds a still frame directly from an RGBA buffer, giving it the
    /// default display delay.
    pub fn from_pixels(pixels: Vec<u8>, width: u32, height: u32) -> (r: StillImage)
        requires
            pixels@.len() == width * height * 4,
        ensures
            r.wf(),
            r.frame@.pixels == pixels@,
            r.frame.width == width,
            r.frame.height == height,
            r.frame.delay == (Frac { num: DEFAULT_DELAY_NUM, den: DEFAULT_DELAY_DEN }),
    {
        StillImage {
            frame: RawImageFrame {
                width,
                height,
                pixels,
                delay: Frac { num: DEFAULT_DELAY_NUM, den: DEFAULT_DELAY_DEN },
            },
        }
    }
}

/// A decoded animation: an ordered sequence of at least two frames.
#[derive(Debug, PartialEq)]
pub struct AnimatedImage {
    pub frames: Vec<RawImageFrame>,
}

impl AnimatedImage {
    pub open spec fn wf(self) -> bool {
        &&& self.frames@.len() >= 2
        &&& forall|i: int| 0 <= i < self.frames@.len() ==> self.frames@[i].wf()
    }

    pub fn from_raw_frames(frames: Vec<RawImageFrame>) -> (r: AnimatedImage)
        requires
            frames@.len() >= 2,
            forall|i: int| 0 <= i < frames@.len() ==> frames@[i].wf(),
        ensures
            r.wf(),
            r.frames == frames,
    {
        AnimatedImage { frames }
    }
}

/// Normalized decoded output: a single still frame, or an animation.
///
/// An `Animated` with fewer than two frames is never constructed; a decode
/// that yields a single frame collapses to `Still`.
#[derive(Debug, PartialEq)]
pub enum Image {
    Still(StillImage),
    Animated(AnimatedImage),
}

impl View for Image {
    type V = Seq<FrameView>;

    /// A `Visual` is abstractly its ordered frame sequence; well-formed
    /// values with one frame are `Still`, with two or more `Animated`.
    open spec fn view(&self) -> Seq<FrameView> {
        match self {
            Image::Still(s) => seq![s.frame@],
            Image::Animated(a) => a.frames@.map_values(|f: RawImageFrame| f@),
        }
    }
}

impl Image {
    pub open spec fn wf(self) -> bool {
        match self {
            Image::Still(s) => s.wf(),
            Image::Animated(a) => a.wf(),
        }
    }

    /// Collapses a decoded frame sequence into a `Visual`: none yields
    /// nothing, one yields a `Still`, two or more an `Animated`.
    pub fn from_frames(mut frames: Vec<RawImageFrame>) -> (r: Option<Image>)
        requires
            forall|i: int| 0 <= i < frames@.len() ==> frames@[i].wf(),
        ensures
            r is Some <==> frames@.len() > 0,
            r is Some ==> r->0.wf() && r->0@ == frames@.map_values(|f: RawImageFrame| f@),
    {
        if frames.len() == 0 {
            None
        } else if frames.len() == 1 {
            let f = frames.pop().unwrap();
            let r = Image::Still(StillImage { frame: f });
            proof {
                assert(r@ =~= frames@.push(f).map_values(|fr: RawImageFrame| fr@));
            }
            Some(r)
        } else {
            let ghost fs = frames@;
            let r = Image::Animated(AnimatedImage { frames });
            proof {
                assert(r@ =~= fs.map_values(|fr: RawImageFrame| fr@));
            }
            Some(r)
        }
    }

    /// The frame shown while the visual is at rest: the still frame, or the
    /// animation's first frame.
    pub fn first_frame(&self) -> (r: &RawImageFrame)
        requires
            self.wf(),
        ensures
            r@ == self@[0],
    {
        match self {
            Image::Still(s) => &s.frame,
            Image::Animated(a) => &a.frames[0],
        }
    }

    /// How many frames the visual holds.
    pub fn frame_count(&self) -> (r: usize)
        ensures
            r == self@.len(),
    {
        match self {
            Image::Still(_) => 1,
            Image::Animated(a) => a.frames.len(),
        }
    }
}

/// Every well-formed `Animated` visual holds at least two frames, and every
/// frame of a well-formed visual carries a positive rational delay; a
/// one-frame animation is never observable.
pub proof fn lemma_animated_never_singleton(v: Image)
    requires
        v.wf(),
    ensures
        v matches Image::Animated(_) ==> v@.len() >= 2,
        v matches Image::Still(_) ==> v@.len() == 1,
        forall|i: int|
            0 <= i < v@.len() ==> (#[trigger] v@[i]).delay_num > 0 && v@[i].delay_den > 0,
{
}

} // verus!
