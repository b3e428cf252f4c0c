use std::io::Cursor;

use gallery_core::codec_bilevel::load_jbig;
use gallery_core::codec_jpegls::load_jpeg_ls;
use gallery_core::codec_raw::load_raw;
use gallery_core::codec_rpgmv::{load_rpgmv, repair_rpgmv};
use gallery_core::entry::{DecodeStage, ImageEntry};
use gallery_core::frame::Image;

fn png_bytes(width: u32, height: u32, rgba: [u8; 4]) -> Vec<u8> {
    let img = image::RgbaImage::from_pixel(width, height, image::Rgba(rgba));
    let mut out: Vec<u8> = Vec::new();
    image::DynamicImage::ImageRgba8(img)
        .write_to(&mut Cursor::new(&mut out), image::ImageFormat::Png)
        .expect("png encoding");
    out
}

fn gif_bytes(frames: usize, delay_ms: u32) -> Vec<u8> {
    let mut out: Vec<u8> = Vec::new();
    {
        let mut encoder = image::codecs::gif::GifEncoder::new(&mut out);
        for i in 0..frames {
            let shade = (i * 20) as u8;
            let buffer = image::RgbaImage::from_pixel(8, 8, image::Rgba([shade, 0, 0, 255]));
            let frame = image::Frame::from_parts(
                buffer,
                0,
                0,
                image::Delay::from_numer_denom_ms(delay_ms, 1),
            );
            encoder.encode_frame(frame).expect("gif frame encoding");
        }
    }
    out
}

#[test]
fn still_png_decodes_to_still() {
    let bytes = png_bytes(6, 4, [10, 20, 30, 255]);
    let visual = ImageEntry::load_image(&bytes).expect("png should decode");
    match &visual {
        Image::Still(s) => {
            assert_eq!(s.frame.width, 6);
            assert_eq!(s.frame.height, 4);
            assert_eq!(s.frame.pixels.len(), 6 * 4 * 4);
            assert_eq!(&s.frame.pixels[0..4], &[10, 20, 30, 255]);
        },
        Image::Animated(_) => panic!("a plain png is a still"),
    }
}

#[test]
fn decoding_twice_is_byte_identical() {
    let bytes = png_bytes(9, 7, [1, 2, 3, 255]);
    let a = ImageEntry::load_image(&bytes).expect("first decode");
    let b = ImageEntry::load_image(&bytes).expect("second decode");
    match (&a, &b) {
        (Image::Still(x), Image::Still(y)) => {
            assert_eq!(x.frame.pixels, y.frame.pixels);
            assert_eq!(x.frame.width, y.frame.width);
            assert_eq!(x.frame.height, y.frame.height);
        },
        _ => panic!("both decodes must agree on the shape"),
    }
}

#[test]
fn ten_frame_gif_with_100ms_delays() {
    let bytes = gif_bytes(10, 100);
    let visual = ImageEntry::load_image(&bytes).expect("gif should decode");
    match &visual {
        Image::Animated(a) => {
            assert_eq!(a.frames.len(), 10);
            for f in &a.frames {
                // delay == 100 ms as a rational
                assert_eq!(f.delay.num as u128 * 1, 100 * f.delay.den as u128);
                assert!(f.delay.num > 0 && f.delay.den > 0);
                assert_eq!(f.pixels.len(), (f.width * f.height * 4) as usize);
            }
        },
        Image::Still(_) => panic!("a multi-frame gif is animated"),
    }
}

#[test]
fn single_frame_gif_collapses_to_still() {
    let bytes = gif_bytes(1, 100);
    let visual = ImageEntry::load_image(&bytes).expect("gif should decode");
    assert!(matches!(visual, Image::Still(_)));
}

#[test]
fn animated_results_have_at_least_two_frames_and_positive_delays() {
    for n in [2usize, 3, 5] {
        let bytes = gif_bytes(n, 0);
        let visual = ImageEntry::load_image(&bytes).expect("gif should decode");
        match &visual {
            Image::Animated(a) => {
                assert!(a.frames.len() >= 2);
                for f in &a.frames {
                    // a zero encoded delay falls back to the 8333/100 ms default
                    assert!(f.delay.num > 0 && f.delay.den > 0);
                    assert_eq!(f.delay.num, 8333);
                    assert_eq!(f.delay.den, 100);
                }
            },
            Image::Still(_) => panic!("expected an animation"),
        }
    }
}

#[test]
fn dicom_magic_with_random_content_is_routed_to_dicom_after_native_fails() {
    let mut bytes = vec![0u8; 512];
    // pseudo-random filler, fixed so the test is reproducible
    let mut x: u32 = 0x12345678;
    for b in bytes.iter_mut() {
        x = x.wrapping_mul(1664525).wrapping_add(1013904223);
        *b = (x >> 24) as u8;
    }
    bytes[128] = 0x44;
    bytes[129] = 0x49;
    bytes[130] = 0x43;
    bytes[131] = 0x4D;
    let failure = match ImageEntry::load_image(&bytes) {
        Err(f) => f,
        Ok(_) => panic!("random bytes must not decode"),
    };
    let stages: Vec<DecodeStage> = failure.attempts.iter().map(|a| a.stage).collect();
    assert_eq!(stages, vec![DecodeStage::Native, DecodeStage::Dicom]);
}

#[test]
fn unknown_bytes_run_native_bilevel_then_raw() {
    let bytes = vec![7u8; 300];
    let failure = match ImageEntry::load_image(&bytes) {
        Err(f) => f,
        Ok(_) => panic!("filler bytes must not decode"),
    };
    let stages: Vec<DecodeStage> = failure.attempts.iter().map(|a| a.stage).collect();
    assert_eq!(
        stages,
        vec![DecodeStage::Native, DecodeStage::Bilevel, DecodeStage::SensorRaw]
    );
}

#[test]
fn rpgmv_repair_reconstructs_the_original_png() {
    let png = png_bytes(5, 3, [9, 9, 9, 255]);
    // a legacy-engine file: 16 extra header bytes, and the first 16 bytes of
    // the real png corrupted
    let mut disguised = vec![0xAAu8; 32];
    disguised[0] = 0x52;
    disguised[1] = 0x50;
    disguised[2] = 0x47;
    disguised[3] = 0x4D;
    disguised[4] = 0x56;
    disguised.extend_from_slice(&png[16..]);
    assert_eq!(repair_rpgmv(&disguised), png);
    let visual = load_rpgmv(&disguised).expect("repaired png should decode");
    match &visual {
        Image::Still(s) => {
            assert_eq!(s.frame.width, 5);
            assert_eq!(s.frame.height, 3);
        },
        Image::Animated(_) => panic!("a png is a still"),
    }
}

#[test]
fn dispatcher_routes_disguised_png_through_the_legacy_stage() {
    let png = png_bytes(5, 3, [1, 2, 3, 255]);
    let mut disguised = vec![0u8; 32];
    disguised[0] = 0x52;
    disguised[1] = 0x50;
    disguised[2] = 0x47;
    disguised[3] = 0x4D;
    disguised[4] = 0x56;
    disguised.extend_from_slice(&png[16..]);
    let visual = ImageEntry::load_image(&disguised).expect("legacy file should decode");
    match &visual {
        Image::Still(s) => {
            assert_eq!((s.frame.width, s.frame.height), (5, 3));
        },
        Image::Animated(_) => panic!("a png is a still"),
    }
}

#[test]
fn thumbnail_downsizes_within_the_target_box() {
    let bytes = png_bytes(100, 50, [5, 5, 5, 255]);
    let visual = ImageEntry::load_thumbnail("big.png", &bytes, 16).expect("thumbnail");
    match &visual {
        Image::Still(s) => {
            assert!(s.frame.width <= 16 && s.frame.height <= 16);
            assert_eq!((s.frame.width, s.frame.height), (16, 8));
            assert_eq!(s.frame.pixels.len(), (16 * 8 * 4) as usize);
        },
        Image::Animated(_) => panic!("thumbnails are stills"),
    }
}

#[test]
fn thumbnail_skips_paths_without_image_extension() {
    let bytes = png_bytes(10, 10, [1, 1, 1, 255]);
    // a video path never enters the image thumbnail cascade
    assert!(ImageEntry::load_thumbnail("clip.mkv", &bytes, 16).is_none());
}

#[test]
fn specialized_stages_reject_garbage() {
    let garbage = vec![0x5Au8; 128];
    assert!(load_jpeg_ls(&garbage).is_err());
    assert!(load_jbig(&garbage).is_err());
    assert!(load_raw(&garbage).is_err());
    assert!(load_rpgmv(&garbage[0..16]).is_err());
}

#[test]
fn entry_classifies_animation_and_paces_frames() {
    let bytes = gif_bytes(3, 100);
    let mut entry = ImageEntry::new(String::from("anim.gif"), &bytes, 1000).expect("decode");
    assert!(entry.is_animated);
    assert_eq!(entry.get_number_of_frames(), 3);
    assert_eq!(entry.current_frame_index, 0);
    // 50 ms later: the 100 ms delay has not elapsed
    let idx = entry.get_current_frame(1050);
    assert_eq!(idx, 0);
    // 100 ms after the start: advance to the second frame
    let idx = entry.get_current_frame(1100);
    assert_eq!(idx, 1);
    // the cursor wraps around cyclically
    let idx = entry.get_current_frame(1200);
    assert_eq!(idx, 2);
    let idx = entry.get_current_frame(1300);
    assert_eq!(idx, 0);
}

#[test]
fn failed_decode_yields_no_entry() {
    assert!(ImageEntry::new(String::from("junk.bin"), &[1u8, 2, 3], 0).is_none());
}

#[test]
fn native_decodable_file_with_dicom_magic_decodes_natively() {
    // a binary PPM: its pixel bytes are raw, so the DICOM marker can be
    // planted at offset 128 while the file stays natively decodable
    let mut bytes: Vec<u8> = Vec::new();
    bytes.extend_from_slice(b"P6\n16 16\n255\n");
    bytes.extend_from_slice(&[0x77u8; 16 * 16 * 3]);
    bytes[128] = 0x44;
    bytes[129] = 0x49;
    bytes[130] = 0x43;
    bytes[131] = 0x4D;
    // the sniffer alone would say DICOM ...
    assert_eq!(
        ImageEntry::try_guess_format(&bytes),
        gallery_core::sniff::ImageFormat::Dicom
    );
    // ... but the cascade attempts the native decoder first, and it succeeds
    let visual = ImageEntry::load_image(&bytes).expect("natively decodable");
    match &visual {
        Image::Still(s) => {
            assert_eq!((s.frame.width, s.frame.height), (16, 16));
        },
        Image::Animated(_) => panic!("a ppm is a still"),
    }
}

#[test]
fn jpeg_ls_magic_routes_to_the_lossless_stage_on_failure() {
    let mut bytes = vec![0xEEu8; 64];
    bytes[0] = 0xFF;
    bytes[1] = 0xD8;
    bytes[2] = 0xFF;
    bytes[3] = 0xF7;
    let failure = match ImageEntry::load_image(&bytes) {
        Err(f) => f,
        Ok(_) => panic!("a truncated marker stream must not decode"),
    };
    let stages: Vec<DecodeStage> = failure.attempts.iter().map(|a| a.stage).collect();
    assert_eq!(stages, vec![DecodeStage::Native, DecodeStage::JpegLs]);
}

#[test]
fn legacy_magic_routes_to_the_legacy_stage_on_failure() {
    // the magic alone, with a body that is no png even after repair
    let mut bytes = vec![0x11u8; 64];
    bytes[0] = 0x52;
    bytes[1] = 0x50;
    bytes[2] = 0x47;
    bytes[3] = 0x4D;
    bytes[4] = 0x56;
    let failure = match ImageEntry::load_image(&bytes) {
        Err(f) => f,
        Ok(_) => panic!("junk must not decode"),
    };
    let stages: Vec<DecodeStage> = failure.attempts.iter().map(|a| a.stage).collect();
    assert_eq!(stages, vec![DecodeStage::Native, DecodeStage::Rpgmv]);
}

#[test]
fn lossless_stage_reassembles_rgb_samples_into_rgba() {
    // the dedicated codec also handles baseline jpeg streams, so one serves
    // to exercise the rgb-to-rgba reassembly on real output
    let img = image::RgbImage::from_pixel(12, 10, image::Rgb([200, 100, 50]));
    let mut bytes: Vec<u8> = Vec::new();
    image::DynamicImage::ImageRgb8(img)
        .write_to(&mut Cursor::new(&mut bytes), image::ImageFormat::Jpeg)
        .expect("jpeg encoding");
    let visual = load_jpeg_ls(&bytes).expect("jpeg should decode");
    match &visual {
        Image::Still(s) => {
            assert_eq!((s.frame.width, s.frame.height), (12, 10));
            assert_eq!(s.frame.pixels.len(), 12 * 10 * 4);
            // every fourth byte is the opaque alpha the expansion added
            assert!(s.frame.pixels.iter().skip(3).step_by(4).all(|a| *a == 255));
        },
        Image::Animated(_) => panic!("a jpeg is a still"),
    }
}
