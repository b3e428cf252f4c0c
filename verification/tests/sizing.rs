use gallery_core::frac::Frac;
use gallery_core::sizing::{calculate_contain_size, calculate_cover_size,
    calculate_thumbnail_layout};

fn as_pair(f: Frac) -> (u64, u64) {
    (f.num, f.den)
}

#[test]
fn contain_wide_image_is_width_limited() {
    // a 200x100 image in a 100x100 box: width pinned, height halved
    let (w, h) = calculate_contain_size(100, 100, 200, 100);
    assert_eq!(as_pair(w), (100, 1));
    assert_eq!(as_pair(h), (100 * 100, 200));
    // height is exactly 50
    assert_eq!(h.num / h.den, 50);
    assert_eq!(h.num % h.den, 0);
}

#[test]
fn contain_tall_image_is_height_limited() {
    let (w, h) = calculate_contain_size(100, 100, 50, 200);
    assert_eq!(as_pair(h), (100, 1));
    assert_eq!(as_pair(w), (100 * 50, 200));
    assert_eq!(w.num / w.den, 25);
}

#[test]
fn contain_never_returns_less_than_one() {
    // a 10000x1 strip in a 10x10 box: exact height would be 1/1000
    let (w, h) = calculate_contain_size(10, 10, 10000, 1);
    assert_eq!(as_pair(w), (10, 1));
    assert_eq!(as_pair(h), (1, 1));
    assert!(w.num >= w.den);
    assert!(h.num >= h.den);
}

#[test]
fn contain_fits_inside_container() {
    let cases = [
        (640u32, 480u32, 1920u32, 1080u32),
        (100, 100, 1, 1),
        (35, 77, 13, 991),
        (1, 1, 4096, 4096),
    ];
    for (cw, ch, iw, ih) in cases {
        let (w, h) = calculate_contain_size(cw, ch, iw, ih);
        // w <= cw and h <= ch, as rationals
        assert!(w.num <= (cw as u64) * w.den, "width overflows container");
        assert!(h.num <= (ch as u64) * h.den, "height overflows container");
    }
}

#[test]
fn contain_preserves_aspect_ratio_exactly() {
    let (w, h) = calculate_contain_size(640, 480, 1920, 1080);
    // w/h == 1920/1080 exactly: w.num * 1080 * h.den == h.num * 1920 * w.den
    assert_eq!(
        w.num as u128 * 1080 * h.den as u128,
        h.num as u128 * 1920 * w.den as u128
    );
}

#[test]
fn cover_covers_container_on_both_axes() {
    let cases = [(640u32, 480u32, 1920u32, 1080u32), (100, 100, 30, 10), (7, 93, 41, 3)];
    for (cw, ch, iw, ih) in cases {
        let (w, h) = calculate_cover_size(cw, ch, iw, ih);
        assert!(w.num >= (cw as u64) * w.den, "width does not cover");
        assert!(h.num >= (ch as u64) * h.den, "height does not cover");
    }
}

#[test]
fn cover_wide_image_matches_height() {
    let (w, h) = calculate_cover_size(100, 100, 200, 100);
    assert_eq!(as_pair(h), (100, 1));
    assert_eq!(as_pair(w), (100 * 200, 100));
    assert_eq!(w.num / w.den, 200);
}

#[test]
fn layout_chooses_largest_qualifying_column_count() {
    // 1000 wide, cells at least 200, gap 10, up to 4 columns:
    // 4 columns need 3*10 + 4*200 = 830 <= 1000
    let (c, width) = calculate_thumbnail_layout(1000, 200, 10, 4);
    assert_eq!(c, 4);
    assert_eq!(as_pair(width), (1000 - 30, 4));
    // the cell width is at least the minimum
    assert!(width.num >= 200 * width.den);
}

#[test]
fn layout_steps_down_when_columns_do_not_fit() {
    // 1000 wide, cells at least 300, gap 10: 3 columns need 920, 4 need 1230
    let (c, width) = calculate_thumbnail_layout(1000, 300, 10, 4);
    assert_eq!(c, 3);
    assert_eq!(as_pair(width), (980, 3));
    assert!(width.num >= 300 * width.den);
}

#[test]
fn layout_falls_back_to_single_full_width_column() {
    // even one column cannot reach the minimum width
    let (c, width) = calculate_thumbnail_layout(150, 200, 10, 4);
    assert_eq!(c, 1);
    assert_eq!(as_pair(width), (150, 1));
}

#[test]
fn layout_no_larger_count_qualifies() {
    let (c, _w) = calculate_thumbnail_layout(1000, 200, 10, 10);
    // c is maximal: c+1 columns would not leave 200 per cell
    let next = (c + 1) as u64;
    assert!(1000 < (next - 1) * 10 + next * 200);
}

#[test]
fn layout_zero_max_columns_yields_full_width() {
    let (c, width) = calculate_thumbnail_layout(500, 100, 10, 0);
    assert_eq!(c, 1);
    assert_eq!(as_pair(width), (500, 1));
}
