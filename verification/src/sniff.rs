//! Content-based format sniffing: classifies a file by magic bytes at fixed
//! offsets, never by its extension.

use vstd::prelude::*;

verus! {

/// How many leading bytes of a file the sniffer wants to inspect. Shorter
/// inputs are still classified; absent bytes simply match no magic.
pub const SNIFF_WINDOW_LEN: usize = 256;

/// Coarse format tag derived purely from byte-content inspection.
#[derive(PartialEq, Eq, Structural, Clone, Copy, Debug)]
pub enum ImageFormat {
    /// Medical-image container ("DICM" at offset 128).
    Dicom,
    /// Legacy-engine disguised PNG ("RPGMV" at offset 0).
    Rpgmv,
    /// Lossless JPEG (start-of-image marker FF D8 FF F7).
    JpegLs,
    /// Bilevel document image, first generation.
    JBig1,
    /// Bilevel document image, second generation.
    JBig2,
    /// No magic matched; the dispatcher tries bilevel, sensor-raw and
    /// video-frame extraction for these.
    Unknown,
}

/// The classification rules, in priority order: DICOM ("DICM" at bytes
/// 128..132), then the legacy-engine signature at bytes 0..5, then the
/// JPEG-LS start-of-image marker at bytes 0..4, else Unknown.
pub open spec fn spec_sniff_format(b: Seq<u8>) -> ImageFormat {
    if b.len() >= 132 && b.subrange(128, 132) == seq![0x44u8, 0x49u8, 0x43u8, 0x4Du8] {
        ImageFormat::Dicom
    } else if b.len() >= 5 && b.subrange(0, 5) == seq![0x52u8, 0x50u8, 0x47u8, 0x4Du8, 0x56u8] {
        ImageFormat::Rpgmv
    } else if b.len() >= 4 && b.subrange(0, 4) == seq![0xFFu8, 0xD8u8, 0xFFu8, 0xF7u8] {
        ImageFormat::JpegLs
    } else {
        ImageFormat::Unknown
    }
}

/// Classifies the leading bytes of a file into a coarse format tag by the
/// magic-byte rules, in priority order.
pub fn sniff_format(bytes: &[u8]) -> (r: ImageFormat)
    ensures
        r == spec_sniff_format(bytes@),
{
    let n = bytes.len();
    if n >= 132 && bytes[128] == 0x44 && bytes[129] == 0x49 && bytes[130] == 0x43 && bytes[131]
        == 0x4D {
        proof {
            assert(bytes@.subrange(128, 132) =~= seq![0x44u8, 0x49u8, 0x43u8, 0x4Du8]);
        }
        return ImageFormat::Dicom;
    }
    proof {
        if bytes@.len() >= 132 {
            let m = seq![0x44u8, 0x49u8, 0x43u8, 0x4Du8];
            if bytes@.subrange(128, 132) == m {
                assert(bytes@[128] == m[0] && bytes@[129] == m[1] && bytes@[130] == m[2]
                    && bytes@[131] == m[3]);
            }
        }
    }
    if n >= 5 && bytes[0] == 0x52 && bytes[1] == 0x50 && bytes[2] == 0x47 && bytes[3] == 0x4D
        && bytes[4] == 0x56 {
        proof {
            assert(bytes@.subrange(0, 5) =~= seq![0x52u8, 0x50u8, 0x47u8, 0x4Du8, 0x56u8]);
        }
        return ImageFormat::Rpgmv;
    }
    proof {
        if bytes@.len() >= 5 {
            let m = seq![0x52u8, 0x50u8, 0x47u8, 0x4Du8, 0x56u8];
            if bytes@.subrange(0, 5) == m {
                assert(bytes@[0] == m[0] && bytes@[1] == m[1] && bytes@[2] == m[2] && bytes@[3]
                    == m[3] && bytes@[4] == m[4]);
            }
        }
    }
    if n >= 4 && bytes[0] == 0xFF && bytes[1] == 0xD8 && bytes[2] == 0xFF && bytes[3] == 0xF7 {
        proof {
            assert(bytes@.subrange(0, 4) =~= seq![0xFFu8, 0xD8u8, 0xFFu8, 0xF7u8]);
        }
        return ImageFormat::JpegLs;
    }
    proof {
        if bytes@.len() >= 4 {
            let m = seq![0xFFu8, 0xD8u8, 0xFFu8, 0xF7u8];
            if bytes@.subrange(0, 4) == m {
                assert(bytes@[0] == m[0] && bytes@[1] == m[1] && bytes@[2] == m[2] && bytes@[3]
                    == m[3]);
            }
        }
    }
    ImageFormat::Unknown
}

} // verus!
