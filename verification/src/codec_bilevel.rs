//! The bilevel-document stage: a document-image codec decodes a file into one
//! or more packed 1-bit-per-pixel pages; only the last page is surfaced, as a
//! normalized black-and-white RGBA still.

use vstd::prelude::*;

use crate::frame::{FrameView, Image, StillImage, DEFAULT_DELAY_DEN, DEFAULT_DELAY_NUM};
use crate::pixels::{bilevel_to_rgba, spec_bilevel_rgba};

verus! {

/// Mathematical content of one decoded bilevel page: packed rows of `stride`
/// bytes, one bit per pixel.
#[verifier::ext_equal]
pub ghost struct BilevelView {
    pub width: int,
    pub height: int,
    pub stride: int,
    pub data: Seq<u8>,
}

/// One decoded bilevel page as the codec hands it over.
pub struct BilevelPage {
    pub width: u32,
    pub height: u32,
    pub stride: u32,
    pub data: Vec<u8>,
}

impl View for BilevelPage {
    type V = BilevelView;

    open spec fn view(&self) -> BilevelView {
        BilevelView {
            width: self.width as int,
            height: self.height as int,
            stride: self.stride as int,
            data: self.data@,
        }
    }
}

/// The page sequence the bilevel codec decodes these bytes to; `None` when
/// decoding fails.
pub uninterp spec fn spec_bilevel_pages(b: Seq<u8>) -> Option<Seq<BilevelView>>;

/// Relies on jbig2dec::Document::from_reader and the accessors of its images:
/// the decoded pages are a function of the bytes alone; every page has
/// positive dimensions, rows of `stride` bytes with `8 * stride >= width`,
/// and `height * stride` data bytes.
#[verifier::external_body]
fn decode_bilevel_pages(bytes: &[u8]) -> (r: Result<Vec<BilevelPage>, String>)
    ensures
        r is Ok <==> spec_bilevel_pages(bytes@) is Some,
        r is Ok ==> r->Ok_0@.map_values(|p: BilevelPage| p@) == spec_bilevel_pages(bytes@)->0,
        r is Ok ==> forall|i: int|
            0 <= i < r->Ok_0@.len() ==> {
                let p = (#[trigger] r->Ok_0@[i])@;
                &&& p.width >= 1
                &&& p.height >= 1
                &&& p.stride >= 1
                &&& p.width <= 8 * p.stride
                &&& p.data.len() == p.height * p.stride
            },
{
    let doc = jbig2dec::Document::from_reader(&mut std::io::Cursor::new(bytes)).map_err(|e| format!("{e}"))?;
    Ok(doc.into_inner().into_iter().map(|img| {
        BilevelPage { width: img.width(), height: img.height(), stride: img.stride(), data: img.data().to_vec() }
    }).collect())
}

/// What the bilevel stage yields: the last decoded page rendered as an opaque
/// black-and-white RGBA frame; `None` when decoding fails, the document holds
/// no page, or the page does not fit a frame.
pub open spec fn spec_bilevel_visual(b: Seq<u8>) -> Option<Seq<FrameView>> {
    match spec_bilevel_pages(b) {
        None => None,
        Some(pages) => {
            if pages.len() == 0 {
                None
            } else {
                let p = pages.last();
                if p.width * p.height * 4 <= usize::MAX {
                    Some(
                        seq![
                            FrameView {
                                width: p.width,
                                height: p.height,
                                pixels: spec_bilevel_rgba(p.data, p.width, p.height, p.stride),
                                delay_num: DEFAULT_DELAY_NUM as int,
                                delay_den: DEFAULT_DELAY_DEN as int,
                            },
                        ],
                    )
                } else {
                    None
                }
            }
        },
    }
}

/// The bilevel-document decode stage. A document may contain several pages;
/// only the last is surfaced.
pub fn load_jbig(bytes: &[u8]) -> (r: Result<Image, String>)
    ensures
        r is Ok <==> spec_bilevel_visual(bytes@) is Some,
        r is Ok ==> r->Ok_0.wf() && r->Ok_0@ == spec_bilevel_visual(bytes@)->0,
{
    let mut pages = match decode_bilevel_pages(bytes) {
        Ok(p) => p,
        Err(e) => {
            return Err(e);
        },
    };
    let ghost gpages = pages@.map_values(|p: BilevelPage| p@);
    if pages.len() == 0 {
        return Err(String::new());
    }
    let page = pages.pop().unwrap();
    proof {
        assert(page@ == gpages.last());
    }
    let w = page.width as usize;
    let h = page.height as usize;
    let stride = page.stride as usize;
    let wh = match w.checked_mul(h) {
        Some(v) => v,
        None => {
            proof {
                lemma_area_overflow(page@, usize::MAX as int);
            }
            return Err(String::new());
        },
    };
    let _area = match wh.checked_mul(4) {
        Some(v) => v,
        None => {
            proof {
                lemma_area_overflow(page@, usize::MAX as int);
            }
            return Err(String::new());
        },
    };
    let rgba = bilevel_to_rgba(page.data.as_slice(), w, h, stride);
    proof {
        assert(spec_bilevel_rgba(page@.data, page@.width, page@.height, page@.stride).len()
            == page@.width * page@.height * 4);
    }
    let image = Image::Still(
        StillImage::from_pixels(rgba, page.width, page.height),
    );
    proof {
        assert(image@ =~= spec_bilevel_visual(bytes@)->0);
    }
    Ok(image)
}

/// When the pixel count of a page overflows the machine word, its RGBA
/// rendering cannot be addressed either.
proof fn lemma_area_overflow(p: BilevelView, max: int)
    requires
        p.width * p.height > max || p.width * p.height * 4 > max,
        p.width >= 0,
        p.height >= 0,
    ensures
        p.width * p.height * 4 > max,
{
    if p.width * p.height > max {
        assert(p.width * p.height * 4 >= p.width * p.height) by (nonlinear_arith)
            requires
                p.width >= 0,
                p.height >= 0,
        ;
    }
}

} // verus!
