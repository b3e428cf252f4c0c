//! The legacy-engine image stage: such a file is a disguised PNG whose first
//! 32 bytes were corrupted. Overwriting them with the canonical PNG signature
//! and IHDR chunk prefix (16 bytes, replacing the 32 corrupted ones)
//! reconstructs a valid PNG, which the native still decoder then handles.

use vstd::prelude::*;

use crate::codec_native::{decode_native_still, frame_of_still, spec_frame_of_still,
    spec_native_still};
use crate::frame::{FrameView, Image, StillImage};

verus! {

/// The canonical 16 leading bytes of a PNG file: the 8-byte signature, the
/// IHDR chunk length (13) and the tag "IHDR".
pub open spec fn spec_png_header() -> Seq<u8> {
    seq![
        137u8,
        80u8,
        78u8,
        71u8,
        13u8,
        10u8,
        26u8,
        10u8,
        0u8,
        0u8,
        0u8,
        13u8,
        73u8,
        72u8,
        68u8,
        82u8,
    ]
}

/// The repaired byte stream: the canonical PNG header in place of the first
/// 32 corrupted bytes.
pub open spec fn spec_rpgmv_repaired(b: Seq<u8>) -> Seq<u8> {
    spec_png_header() + b.skip(32)
}

/// What the legacy-engine stage yields: the native still decode of the
/// repaired bytes, as a single frame; `None` when the file is shorter than
/// its 32-byte corrupted prefix or the repaired bytes do not decode.
pub open spec fn spec_rpgmv_visual(b: Seq<u8>) -> Option<Seq<FrameView>> {
    if b.len() < 32 {
        None
    } else {
        match spec_native_still(spec_rpgmv_repaired(b)) {
            None => None,
            Some(img) => Some(seq![spec_frame_of_still(img)]),
        }
    }
}

/// Rebuilds the disguised PNG by replacing the 32-byte corrupted prefix with
/// the canonical PNG header.
pub fn repair_rpgmv(bytes: &[u8]) -> (r: Vec<u8>)
    requires
        bytes@.len() >= 32,
    ensures
        r@ == spec_rpgmv_repaired(bytes@),
{
    let mut out: Vec<u8> = Vec::new();
    out.push(137);
    out.push(80);
    out.push(78);
    out.push(71);
    out.push(13);
    out.push(10);
    out.push(26);
    out.push(10);
    out.push(0);
    out.push(0);
    out.push(0);
    out.push(13);
    out.push(73);
    out.push(72);
    out.push(68);
    out.push(82);
    proof {
        assert(out@ =~= spec_png_header());
    }
    let n = bytes.len();
    let mut i: usize = 32;
    while i < n
        invariant
            32 <= i <= n,
            n == bytes@.len(),
            out@ == spec_png_header() + bytes@.subrange(32, i as int),
        decreases n - i,
    {
        out.push(bytes[i]);
        proof {
            assert(spec_png_header() + bytes@.subrange(32, i + 1) =~= (spec_png_header()
                + bytes@.subrange(32, i as int)).push(bytes@[i as int]));
        }
        i = i + 1;
    }
    proof {
        assert(bytes@.subrange(32, n as int) =~= bytes@.skip(32));
    }
    out
}

/// The legacy-engine decode stage: repairs the corrupted 32-byte prefix and
/// decodes the result as a PNG still.
pub fn load_rpgmv(bytes: &[u8]) -> (r: Result<Image, String>)
    ensures
        r is Ok <==> spec_rpgmv_visual(bytes@) is Some,
        r is Ok ==> r->Ok_0.wf() && r->Ok_0@ == spec_rpgmv_visual(bytes@)->0,
{
    if bytes.len() < 32 {
        return Err(String::new());
    }
    let repaired = repair_rpgmv(bytes);
    let still = match decode_native_still(repaired.as_slice()) {
        Ok(img) => img,
        Err(e) => {
            return Err(e);
        },
    };
    let frame = frame_of_still(still);
    let image = Image::Still(StillImage { frame });
    proof {
        assert(image@ =~= spec_rpgmv_visual(bytes@)->0);
    }
    Ok(image)
}

} // verus!
