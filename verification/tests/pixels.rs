use gallery_core::frac::Frac;
use gallery_core::pixels::{bilevel_to_rgba, rgb_to_rgba, strip_stride, video_frame_to_image};

#[test]
fn rgb_gains_an_opaque_alpha_channel() {
    let rgb = [1u8, 2, 3, 4, 5, 6];
    let rgba = rgb_to_rgba(&rgb);
    assert_eq!(rgba, vec![1, 2, 3, 255, 4, 5, 6, 255]);
}

#[test]
fn rgb_conversion_drops_trailing_partial_pixel() {
    let rgb = [1u8, 2, 3, 4, 5];
    let rgba = rgb_to_rgba(&rgb);
    assert_eq!(rgba, vec![1, 2, 3, 255]);
    assert!(rgb_to_rgba(&[]).is_empty());
}

#[test]
fn bilevel_bits_become_black_and_white_pixels() {
    // one row of three pixels packed into one byte: 1,0,1 from the MSB
    let data = [0b1010_0000u8];
    let rgba = bilevel_to_rgba(&data, 3, 1, 1);
    assert_eq!(
        rgba,
        vec![0, 0, 0, 255, 255, 255, 255, 255, 0, 0, 0, 255]
    );
}

#[test]
fn bilevel_rows_respect_the_stride() {
    // two rows of one pixel each, two bytes per row: only the first bit of
    // each row matters
    let data = [0b1000_0000u8, 0xFF, 0b0000_0000, 0xFF];
    let rgba = bilevel_to_rgba(&data, 1, 2, 2);
    assert_eq!(rgba, vec![0, 0, 0, 255, 255, 255, 255, 255]);
}

#[test]
fn strided_rows_are_packed_tight() {
    // two rows of one RGBA pixel, rows six bytes apart
    let data = [1u8, 2, 3, 4, 90, 91, 5, 6, 7, 8, 92, 93];
    let packed = strip_stride(&data, 1, 2, 6);
    assert_eq!(packed, vec![1, 2, 3, 4, 5, 6, 7, 8]);
}

#[test]
fn video_frame_normalization_checks_geometry() {
    let delay = Frac { num: 33, den: 1 };
    let data = [1u8, 2, 3, 4, 90, 91, 5, 6, 7, 8, 92, 93];
    let frame = video_frame_to_image(&data, 1, 2, 6, delay).expect("consistent geometry");
    assert_eq!(frame.width, 1);
    assert_eq!(frame.height, 2);
    assert_eq!(frame.pixels, vec![1, 2, 3, 4, 5, 6, 7, 8]);
    // a buffer too short for the declared geometry is rejected
    assert!(video_frame_to_image(&data, 1, 3, 6, delay).is_none());
    // a stride narrower than one row of pixels is rejected
    assert!(video_frame_to_image(&data, 2, 1, 6, delay).is_none());
    // a zero width is rejected
    assert!(video_frame_to_image(&data, 0, 1, 6, delay).is_none());
}
