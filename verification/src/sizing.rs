//! Pure aspect-fit sizing helpers: contain/cover scaling of content into a
//! container, and the thumbnail grid column count.
//!
//! Dimensions are exact rationals, so aspect ratios are preserved without
//! rounding; results are clamped to a minimum of one to avoid degenerate
//! zero-size results.

use vstd::prelude::*;

use crate::frac::Frac;

verus! {

/// Clamps the rational `num / den` to at least one.
pub open spec fn spec_clamp_min_one(num: int, den: int) -> (int, int) {
    if num < den {
        (1, 1)
    } else {
        (num, den)
    }
}

/// The contain-fit rule: the largest size that fits entirely inside the
/// container while keeping the content's aspect ratio, each axis clamped to a
/// minimum of one. Returned as two rationals `(width, height)`, each a
/// numerator/denominator pair.
pub open spec fn spec_contain_size(cw: int, ch: int, iw: int, ih: int) -> ((int, int), (int, int)) {
    if iw * ch > ih * cw {
        // content is proportionally wider than the container: width-limited
        (spec_clamp_min_one(cw, 1), spec_clamp_min_one(cw * ih, iw))
    } else {
        // content is proportionally taller (or equal): height-limited
        (spec_clamp_min_one(ch * iw, ih), spec_clamp_min_one(ch, 1))
    }
}

/// The cover-fit rule: the smallest size that fully covers the container
/// while keeping the content's aspect ratio (cropping implied), each axis
/// clamped to a minimum of one.
pub open spec fn spec_cover_size(cw: int, ch: int, iw: int, ih: int) -> ((int, int), (int, int)) {
    if iw * ch > ih * cw {
        // content is proportionally wider: match heights, overflow width
        (spec_clamp_min_one(ch * iw, ih), spec_clamp_min_one(ch, 1))
    } else {
        (spec_clamp_min_one(cw, 1), spec_clamp_min_one(cw * ih, iw))
    }
}

/// Whether the contain rule clamps neither axis for these inputs.
pub open spec fn spec_contain_unclamped(cw: int, ch: int, iw: int, ih: int) -> bool {
    if iw * ch > ih * cw {
        cw >= 1 && cw * ih >= iw
    } else {
        ch * iw >= ih && ch >= 1
    }
}

/// Whether the cover rule clamps neither axis for these inputs.
pub open spec fn spec_cover_unclamped(cw: int, ch: int, iw: int, ih: int) -> bool {
    if iw * ch > ih * cw {
        ch * iw >= ih && ch >= 1
    } else {
        cw >= 1 && cw * ih >= iw
    }
}

fn clamp_min_one(num: u64, den: u64) -> (r: Frac)
    requires
        den > 0,
    ensures
        r.wf(),
        (r.num as int, r.den as int) == spec_clamp_min_one(num as int, den as int),
{
    if num < den {
        Frac { num: 1, den: 1 }
    } else {
        Frac { num, den }
    }
}

/// Scales content of size `img_width x img_height` to the largest size that
/// fits entirely within `container_width x container_height` while preserving
/// the aspect ratio exactly, both axes clamped to a minimum of one.
pub fn calculate_contain_size(
    container_width: u32,
    container_height: u32,
    img_width: u32,
    img_height: u32,
) -> (r: (Frac, Frac))
    requires
        img_width > 0,
        img_height > 0,
    ensures
        r.0.wf() && r.1.wf(),
        (r.0.num as int, r.0.den as int) == spec_contain_size(
            container_width as int,
            container_height as int,
            img_width as int,
            img_height as int,
        ).0,
        (r.1.num as int, r.1.den as int) == spec_contain_size(
            container_width as int,
            container_height as int,
            img_width as int,
            img_height as int,
        ).1,
        // never degenerate: both axes are at least one
        r.0.num >= r.0.den && r.1.num >= r.1.den,
        // fits inside a non-degenerate container on both axes
        container_width >= 1 ==> r.0.rat_le(Frac { num: container_width as u64, den: 1 }),
        container_height >= 1 ==> r.1.rat_le(Frac { num: container_height as u64, den: 1 }),
        // aspect ratio is preserved exactly whenever neither axis was clamped
        spec_contain_unclamped(
            container_width as int,
            container_height as int,
            img_width as int,
            img_height as int,
        ) ==> r.0.num * (img_height as int) * r.1.den == r.1.num * (img_width as int) * r.0.den,
{
    let cw = container_width as u64;
    let ch = container_height as u64;
    let iw = img_width as u64;
    let ih = img_height as u64;
    proof {
        assert(iw * ch <= u64::MAX && ih * cw <= u64::MAX && cw * ih <= u64::MAX && ch * iw
            <= u64::MAX) by (nonlinear_arith)
            requires
                iw <= 0xffff_ffff,
                ih <= 0xffff_ffff,
                cw <= 0xffff_ffff,
                ch <= 0xffff_ffff,
        ;
    }
    let r = if iw * ch > ih * cw {
        (clamp_min_one(cw, 1), clamp_min_one(cw * ih, iw))
    } else {
        (clamp_min_one(ch * iw, ih), clamp_min_one(ch, 1))
    };
    proof {
        lemma_fit_bounds(cw as int, ch as int, iw as int, ih as int, r);
    }
    r
}

/// Scales content of size `img_width x img_height` to the smallest size that
/// fully covers `container_width x container_height` while preserving the
/// aspect ratio exactly, both axes clamped to a minimum of one.
pub fn calculate_cover_size(
    container_width: u32,
    container_height: u32,
    img_width: u32,
    img_height: u32,
) -> (r: (Frac, Frac))
    requires
        img_width > 0,
        img_height > 0,
    ensures
        r.0.wf() && r.1.wf(),
        (r.0.num as int, r.0.den as int) == spec_cover_size(
            container_width as int,
            container_height as int,
            img_width as int,
            img_height as int,
        ).0,
        (r.1.num as int, r.1.den as int) == spec_cover_size(
            container_width as int,
            container_height as int,
            img_width as int,
            img_height as int,
        ).1,
        r.0.num >= r.0.den && r.1.num >= r.1.den,
        // fully covers the container on both axes
        (Frac { num: container_width as u64, den: 1 }).rat_le(r.0),
        (Frac { num: container_height as u64, den: 1 }).rat_le(r.1),
        // aspect ratio is preserved exactly whenever neither axis was clamped
        spec_cover_unclamped(
            container_width as int,
            container_height as int,
            img_width as int,
            img_height as int,
        ) ==> r.0.num * (img_height as int) * r.1.den == r.1.num * (img_width as int) * r.0.den,
{
    let cw = container_width as u64;
    let ch = container_height as u64;
    let iw = img_width as u64;
    let ih = img_height as u64;
    proof {
        assert(iw * ch <= u64::MAX && ih * cw <= u64::MAX && cw * ih <= u64::MAX && ch * iw
            <= u64::MAX) by (nonlinear_arith)
            requires
                iw <= 0xffff_ffff,
                ih <= 0xffff_ffff,
                cw <= 0xffff_ffff,
                ch <= 0xffff_ffff,
        ;
    }
    let r = if iw * ch > ih * cw {
        (clamp_min_one(ch * iw, ih), clamp_min_one(ch, 1))
    } else {
        (clamp_min_one(cw, 1), clamp_min_one(cw * ih, iw))
    };
    proof {
        lemma_cover_bounds(cw as int, ch as int, iw as int, ih as int, r);
    }
    r
}

proof fn lemma_fit_bounds(cw: int, ch: int, iw: int, ih: int, r: (Frac, Frac))
    requires
        iw > 0,
        ih > 0,
        cw >= 0,
        ch >= 0,
        cw <= u64::MAX,
        ch <= u64::MAX,
        (r.0.num as int, r.0.den as int) == spec_contain_size(cw, ch, iw, ih).0,
        (r.1.num as int, r.1.den as int) == spec_contain_size(cw, ch, iw, ih).1,
    ensures
        cw >= 1 ==> r.0.rat_le(Frac { num: cw as u64, den: 1 }),
        ch >= 1 ==> r.1.rat_le(Frac { num: ch as u64, den: 1 }),
        spec_contain_unclamped(cw, ch, iw, ih) ==> r.0.num * ih * r.1.den == r.1.num * iw
            * r.0.den,
{
    if iw * ch > ih * cw {
        assert(cw >= 1 ==> r.0.num * 1 <= cw * r.0.den) by (nonlinear_arith)
            requires
                (r.0.num as int, r.0.den as int) == spec_clamp_min_one(cw, 1),
        ;
        assert(ch >= 1 ==> r.1.num * 1 <= ch * r.1.den) by (nonlinear_arith)
            requires
                (r.1.num as int, r.1.den as int) == spec_clamp_min_one(cw * ih, iw),
                iw * ch > ih * cw,
                iw > 0,
                ih > 0,
                cw >= 0,
        ;
        if spec_contain_unclamped(cw, ch, iw, ih) {
            assert(r.0.num * ih * r.1.den == r.1.num * iw * r.0.den) by (nonlinear_arith)
                requires
                    r.0.num == cw,
                    r.0.den == 1,
                    r.1.num == cw * ih,
                    r.1.den == iw,
            ;
        }
    } else {
        if cw >= 1 {
            assert(r.0.num * 1 <= cw * r.0.den) by (nonlinear_arith)
                requires
                    (r.0.num as int, r.0.den as int) == spec_clamp_min_one(ch * iw, ih),
                    iw * ch <= ih * cw,
                    iw > 0,
                    ih > 0,
                    cw >= 1,
            ;
        }
        assert(ch >= 1 ==> r.1.num * 1 <= ch * r.1.den) by (nonlinear_arith)
            requires
                (r.1.num as int, r.1.den as int) == spec_clamp_min_one(ch, 1),
        ;
        if spec_contain_unclamped(cw, ch, iw, ih) {
            assert(r.0.num * ih * r.1.den == r.1.num * iw * r.0.den) by (nonlinear_arith)
                requires
                    r.0.num == ch * iw,
                    r.0.den == ih,
                    r.1.num == ch,
                    r.1.den == 1,
            ;
        }
    }
}

proof fn lemma_cover_bounds(cw: int, ch: int, iw: int, ih: int, r: (Frac, Frac))
    requires
        iw > 0,
        ih > 0,
        cw >= 0,
        ch >= 0,
        (r.0.num as int, r.0.den as int) == spec_cover_size(cw, ch, iw, ih).0,
        (r.1.num as int, r.1.den as int) == spec_cover_size(cw, ch, iw, ih).1,
    ensures
        cw * (r.0.den as int) <= r.0.num * 1,
        ch * (r.1.den as int) <= r.1.num * 1,
        spec_cover_unclamped(cw, ch, iw, ih) ==> r.0.num * ih * r.1.den == r.1.num * iw * r.0.den,
{
    if iw * ch > ih * cw {
        assert(cw * r.0.den <= r.0.num * 1) by (nonlinear_arith)
            requires
                (r.0.num as int, r.0.den as int) == spec_clamp_min_one(ch * iw, ih),
                iw * ch > ih * cw,
                iw > 0,
                ih > 0,
                cw >= 0,
        ;
        assert(ch * r.1.den <= r.1.num * 1) by (nonlinear_arith)
            requires
                (r.1.num as int, r.1.den as int) == spec_clamp_min_one(ch, 1),
                ch >= 0,
        ;
        if spec_cover_unclamped(cw, ch, iw, ih) {
            assert(r.0.num * ih * r.1.den == r.1.num * iw * r.0.den) by (nonlinear_arith)
                requires
                    r.0.num == ch * iw,
                    r.0.den == ih,
                    r.1.num == ch,
                    r.1.den == 1,
            ;
        }
    } else {
        assert(cw * r.0.den <= r.0.num * 1) by (nonlinear_arith)
            requires
                (r.0.num as int, r.0.den as int) == spec_clamp_min_one(cw, 1),
                cw >= 0,
        ;
        assert(ch * r.1.den <= r.1.num * 1) by (nonlinear_arith)
            requires
                (r.1.num as int, r.1.den as int) == spec_clamp_min_one(cw * ih, iw),
                iw * ch <= ih * cw,
                iw > 0,
                ih > 0,
                ch >= 0,
        ;
        if spec_cover_unclamped(cw, ch, iw, ih) {
            assert(r.0.num * ih * r.1.den == r.1.num * iw * r.0.den) by (nonlinear_arith)
                requires
                    r.0.num == cw,
                    r.0.den == 1,
                    r.1.num == cw * ih,
                    r.1.den == iw,
            ;
        }
    }
}

/// Whether `columns` columns of cells at least `min_width` wide, separated by
/// `gap`, fit into `available` width.
pub open spec fn spec_columns_fit(available: int, min_width: int, gap: int, columns: int) -> bool {
    available >= (columns - 1) * gap + columns * min_width
}

/// Chooses the largest column count `c <= max_columns` such that after
/// spending `(c - 1) * gap` on gaps every cell is still at least
/// `min_thumbnail_width` wide, returning `c` and the exact rational cell
/// width; falls back to a single column spanning the full width when no
/// count qualifies.
pub fn calculate_thumbnail_layout(
    available_width: u32,
    min_thumbnail_width: u32,
    thumbnail_gap: u32,
    max_columns_count: u32,
) -> (r: (u32, Frac))
    ensures
        r.1.wf(),
        1 <= r.0,
        max_columns_count >= 1 ==> r.0 <= max_columns_count,
        // no larger qualifying column count exists
        forall|c: int|
            r.0 < c <= max_columns_count ==> !spec_columns_fit(
                available_width as int,
                min_thumbnail_width as int,
                thumbnail_gap as int,
                c,
            ),
        // either the chosen count qualifies and the cell width is exact ...
        spec_columns_fit(
            available_width as int,
            min_thumbnail_width as int,
            thumbnail_gap as int,
            r.0 as int,
        ) ==> {
            &&& r.1.num == available_width - (r.0 - 1) * thumbnail_gap
            &&& r.1.den == r.0
            &&& r.1.num >= (min_thumbnail_width as int) * r.1.den
        },
        // ... or no count qualifies and one full-width column is returned
        !spec_columns_fit(
            available_width as int,
            min_thumbnail_width as int,
            thumbnail_gap as int,
            r.0 as int,
        ) ==> r.0 == 1 && r.1 == (Frac { num: available_width as u64, den: 1 }),
{
    let aw = available_width as u64;
    let mw = min_thumbnail_width as u64;
    let gap = thumbnail_gap as u64;
    let mut columns = max_columns_count;
    while columns >= 1
        invariant
            columns <= max_columns_count,
            aw == available_width,
            mw == min_thumbnail_width,
            gap == thumbnail_gap,
            forall|c: int|
                columns < c <= max_columns_count ==> !spec_columns_fit(
                    available_width as int,
                    min_thumbnail_width as int,
                    thumbnail_gap as int,
                    c,
                ),
        decreases columns,
    {
        let c = columns as u64;
        proof {
            assert((c - 1) * gap <= u64::MAX && c * mw <= u64::MAX) by (nonlinear_arith)
                requires
                    1 <= c <= 0xffff_ffffu64,
                    gap <= 0xffff_ffff,
                    mw <= 0xffff_ffff,
            ;
        }
        let total_gaps = (c - 1) * gap;
        let needed = c * mw;
        if aw >= total_gaps && aw - total_gaps >= needed {
            let num = aw - total_gaps;
            proof {
                assert(num * 1 >= mw * c) by (nonlinear_arith)
                    requires
                        num >= c * mw,
                ;
            }
            return (columns, Frac { num, den: c });
        }
        columns = columns - 1;
    }
    (1, Frac { num: aw, den: 1 })
}

} // verus!
