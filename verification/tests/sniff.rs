use gallery_core::entry::ImageEntry;
use gallery_core::sniff::{sniff_format, ImageFormat, SNIFF_WINDOW_LEN};

fn dicom_header() -> Vec<u8> {
    let mut bytes = vec![0u8; SNIFF_WINDOW_LEN];
    bytes[128] = 0x44;
    bytes[129] = 0x49;
    bytes[130] = 0x43;
    bytes[131] = 0x4D;
    bytes
}

#[test]
fn dicom_magic_at_offset_128() {
    assert_eq!(sniff_format(&dicom_header()), ImageFormat::Dicom);
}

#[test]
fn rpgmv_magic_at_start() {
    let mut bytes = vec![0u8; 64];
    bytes[0] = 0x52;
    bytes[1] = 0x50;
    bytes[2] = 0x47;
    bytes[3] = 0x4D;
    bytes[4] = 0x56;
    assert_eq!(sniff_format(&bytes), ImageFormat::Rpgmv);
}

#[test]
fn jpeg_ls_marker_at_start() {
    let bytes = vec![0xFFu8, 0xD8, 0xFF, 0xF7, 0, 0, 0, 0];
    assert_eq!(sniff_format(&bytes), ImageFormat::JpegLs);
}

#[test]
fn unmatched_bytes_are_unknown() {
    assert_eq!(sniff_format(&[0u8; 256]), ImageFormat::Unknown);
    assert_eq!(sniff_format(b"plain text"), ImageFormat::Unknown);
}

#[test]
fn short_input_matches_only_leading_magics() {
    // too short for the DICOM window, long enough for the leading magics
    let mut bytes = vec![0u8; 64];
    assert_eq!(sniff_format(&bytes), ImageFormat::Unknown);
    bytes[0] = 0xFF;
    bytes[1] = 0xD8;
    bytes[2] = 0xFF;
    bytes[3] = 0xF7;
    assert_eq!(sniff_format(&bytes), ImageFormat::JpegLs);
    assert_eq!(sniff_format(&[]), ImageFormat::Unknown);
}

#[test]
fn dicom_takes_priority_over_leading_magics() {
    let mut bytes = dicom_header();
    bytes[0] = 0x52;
    bytes[1] = 0x50;
    bytes[2] = 0x47;
    bytes[3] = 0x4D;
    bytes[4] = 0x56;
    assert_eq!(sniff_format(&bytes), ImageFormat::Dicom);
}

#[test]
fn entry_guess_format_agrees_with_sniffer() {
    assert_eq!(ImageEntry::try_guess_format(&dicom_header()), ImageFormat::Dicom);
    assert_eq!(ImageEntry::try_guess_format(&[1u8, 2, 3]), ImageFormat::Unknown);
}
