//! Classification of file paths by extension: the fixed allow-lists of
//! recognized image and video extensions (compared case-insensitively), and
//! the handling of paths without an extension, which stay candidates and are
//! resolved by content sniffing alone.

use vstd::prelude::*;

verus! {

/// Index of the last occurrence of `c` in `s`, or -1 when `s` does not
/// contain it.
pub open spec fn spec_last_index(s: Seq<char>, c: char) -> int
    decreases s.len(),
{
    if s.len() == 0 {
        -1
    } else if s.last() == c {
        s.len() - 1
    } else {
        spec_last_index(s.drop_last(), c)
    }
}

proof fn lemma_last_index_push(s: Seq<char>, c: char, x: char)
    ensures
        spec_last_index(s.push(x), c) == if x == c {
            s.len() as int
        } else {
            spec_last_index(s, c)
        },
{
    assert(s.push(x).drop_last() =~= s);
    assert(s.push(x).last() == x);
}

proof fn lemma_last_index_bounds(s: Seq<char>, c: char)
    ensures
        -1 <= spec_last_index(s, c) < s.len(),
    decreases s.len(),
{
    if s.len() > 0 && s.last() != c {
        lemma_last_index_bounds(s.drop_last(), c);
    }
}

/// The extension of a '/'-separated path: the characters after the last dot
/// of the final path component, provided that dot is not the component's
/// first character. A name such as `archive.tar` has extension `tar`; a bare
/// name, and a hidden-file name whose only dot leads it, have none.
pub open spec fn spec_extension(p: Seq<char>) -> Option<Seq<char>> {
    let name_start = spec_last_index(p, '/') + 1;
    let dot = spec_last_index(p, '.');
    if dot > name_start {
        Some(p.subrange(dot + 1, p.len() as int))
    } else {
        None
    }
}

/// ASCII lowercasing of one character; other characters are unchanged.
pub open spec fn spec_lower(c: char) -> char {
    if 65 <= c as u32 && c as u32 <= 90 {
        (((c as u8) + 32) as char)
    } else {
        c
    }
}

/// ASCII lowercasing of a character sequence.
pub open spec fn spec_lower_seq(s: Seq<char>) -> Seq<char> {
    s.map_values(|c: char| spec_lower(c))
}

fn lower_char(c: char) -> (r: char)
    ensures
        r == spec_lower(c),
{
    if c >= 'A' && c <= 'Z' {
        ((c as u8) + 32) as char
    } else {
        c
    }
}

/// The lowercased extension of `path`, or `None` when the path has no
/// extension.
pub fn extension_lowercase(path: &str) -> (r: Option<Vec<char>>)
    ensures
        r is Some <==> spec_extension(path@) is Some,
        r is Some ==> r->0@ == spec_lower_seq(spec_extension(path@)->0),
{
    let n = path.unicode_len();
    let mut chars: Vec<char> = Vec::new();
    let mut i: usize = 0;
    let mut last_slash: Option<usize> = None;
    let mut last_dot: Option<usize> = None;
    proof {
        assert(path@.take(0) =~= Seq::<char>::empty());
    }
    while i < n
        invariant
            n == path@.len(),
            i <= n,
            chars@ == path@.take(i as int),
            match last_slash {
                Some(j) => spec_last_index(path@.take(i as int), '/') == j && j < i,
                None => spec_last_index(path@.take(i as int), '/') == -1,
            },
            match last_dot {
                Some(j) => spec_last_index(path@.take(i as int), '.') == j && j < i,
                None => spec_last_index(path@.take(i as int), '.') == -1,
            },
        decreases n - i,
    {
        let c = path.get_char(i);
        proof {
            assert(path@.take(i + 1) =~= path@.take(i as int).push(path@[i as int]));
            lemma_last_index_push(path@.take(i as int), '/', path@[i as int]);
            lemma_last_index_push(path@.take(i as int), '.', path@[i as int]);
        }
        chars.push(c);
        if c == '/' {
            last_slash = Some(i);
        }
        if c == '.' {
            last_dot = Some(i);
        }
        i = i + 1;
    }
    proof {
        assert(path@.take(n as int) =~= path@);
    }
    let name_start = match last_slash {
        Some(j) => j + 1,
        None => 0,
    };
    let dot = match last_dot {
        Some(j) => j,
        None => {
            return None;
        },
    };
    if dot < name_start || name_start > dot {
        return None;
    }
    if dot == name_start && name_start > 0 {
        // the dot leads the final component only when it directly follows
        // the slash; a dot at that spot yields no extension
        return None;
    }
    if dot == 0 {
        return None;
    }
    let mut ext: Vec<char> = Vec::new();
    let mut k: usize = dot + 1;
    proof {
        lemma_last_index_bounds(path@, '.');
        assert(ext@ =~= spec_lower_seq(path@.subrange(dot + 1, dot + 1)));
    }
    while k < chars.len()
        invariant
            chars@ == path@,
            dot < k <= chars@.len(),
            ext@ == spec_lower_seq(path@.subrange(dot + 1, k as int)),
        decreases chars@.len() - k,
    {
        let c = lower_char(chars[k]);
        ext.push(c);
        proof {
            assert(path@.subrange(dot + 1, k + 1) =~= path@.subrange(dot + 1, k as int).push(
                path@[k as int],
            ));
            assert(spec_lower_seq(path@.subrange(dot + 1, k + 1)) =~= spec_lower_seq(
                path@.subrange(dot + 1, k as int),
            ).push(spec_lower(path@[k as int])));
        }
        k = k + 1;
    }
    proof {
        assert(spec_extension(path@) is Some);
        assert(path@.subrange(dot + 1, path@.len() as int) == spec_extension(path@)->0);
    }
    Some(ext)
}

/// Compares a character vector against a string literal.
fn eq_lit(e: &Vec<char>, pat: &str) -> (r: bool)
    ensures
        r == (e@ == pat@),
{
    let m = pat.unicode_len();
    if e.len() != m {
        proof {
            assert(e@.len() != pat@.len());
        }
        return false;
    }
    let mut j: usize = 0;
    while j < m
        invariant
            m == pat@.len(),
            e@.len() == m,
            j <= m,
            forall|i: int| 0 <= i < j ==> e@[i] == pat@[i],
        decreases m - j,
    {
        if e[j] != pat.get_char(j) {
            return false;
        }
        j = j + 1;
    }
    proof {
        assert(e@ =~= pat@);
    }
    true
}

/// The fixed allow-list of recognized image extensions, lowercased.
pub open spec fn spec_is_image_ext(e: Seq<char>) -> bool {
    ||| e == "3fr"@
    ||| e == "arw"@
    ||| e == "avif"@
    ||| e == "bmp"@
    ||| e == "cr2"@
    ||| e == "crw"@
    ||| e == "cur"@
    ||| e == "dcm"@
    ||| e == "dds"@
    ||| e == "dng"@
    ||| e == "erf"@
    ||| e == "gif"@
    ||| e == "hdr"@
    ||| e == "heic"@
    ||| e == "heif"@
    ||| e == "j2c"@
    ||| e == "jfif"@
    ||| e == "jls"@
    ||| e == "jp2"@
    ||| e == "jpeg"@
    ||| e == "jpf"@
    ||| e == "jpg"@
    ||| e == "jpm"@
    ||| e == "kdc"@
    ||| e == "mdc"@
    ||| e == "mef"@
    ||| e == "mj2"@
    ||| e == "mos"@
    ||| e == "mrw"@
    ||| e == "nef"@
    ||| e == "nrw"@
    ||| e == "orf"@
    ||| e == "pef"@
    ||| e == "pgm"@
    ||| e == "png"@
    ||| e == "ppm"@
    ||| e == "raf"@
    ||| e == "raw"@
    ||| e == "rw2"@
    ||| e == "sr2"@
    ||| e == "srf"@
    ||| e == "srw"@
    ||| e == "tif"@
    ||| e == "tiff"@
    ||| e == "webp"@
    ||| e == "x3f"@
    ||| e == "png_"@
    ||| e == "rpgmvp"@
    ||| e == "jbg"@
    ||| e == "jb2"@
}

/// The fixed allow-list of recognized video extensions, lowercased.
pub open spec fn spec_is_video_ext(e: Seq<char>) -> bool {
    ||| e == "3g2"@
    ||| e == "3gp"@
    ||| e == "asf"@
    ||| e == "avi"@
    ||| e == "flv"@
    ||| e == "m2ts"@
    ||| e == "m4v"@
    ||| e == "mjpeg"@
    ||| e == "mkv"@
    ||| e == "mov"@
    ||| e == "mp4"@
    ||| e == "mts"@
    ||| e == "mxf"@
    ||| e == "rm"@
    ||| e == "rmvb"@
    ||| e == "swf"@
    ||| e == "ts"@
    ||| e == "vob"@
    ||| e == "webm"@
    ||| e == "wmv"@
}

/// Whether the path carries a recognized image extension (case-insensitive).
pub open spec fn spec_is_image(p: Seq<char>) -> bool {
    match spec_extension(p) {
        Some(e) => spec_is_image_ext(spec_lower_seq(e)),
        None => false,
    }
}

/// Whether the path carries a recognized video extension (case-insensitive).
pub open spec fn spec_is_video(p: Seq<char>) -> bool {
    match spec_extension(p) {
        Some(e) => spec_is_video_ext(spec_lower_seq(e)),
        None => false,
    }
}

/// A path is a media candidate when its extension is a recognized image or
/// video extension, or when it has no extension at all (those are resolved by
/// content sniffing).
pub open spec fn spec_is_media(p: Seq<char>) -> bool {
    spec_is_image(p) || spec_is_video(p) || spec_extension(p) is None
}

/// Whether the path names a file with a recognized image extension,
/// compared case-insensitively.
pub fn is_image(file: &str) -> (r: bool)
    ensures
        r == spec_is_image(file@),
{
    match extension_lowercase(file) {
        None => false,
        Some(e) => {
            eq_lit(&e, "3fr") || eq_lit(&e, "arw") || eq_lit(&e, "avif") || eq_lit(&e, "bmp")
                || eq_lit(&e, "cr2") || eq_lit(&e, "crw") || eq_lit(&e, "cur") || eq_lit(&e, "dcm")
                || eq_lit(&e, "dds") || eq_lit(&e, "dng") || eq_lit(&e, "erf") || eq_lit(&e, "gif")
                || eq_lit(&e, "hdr") || eq_lit(&e, "heic") || eq_lit(&e, "heif") || eq_lit(
                &e,
                "j2c",
            ) || eq_lit(&e, "jfif") || eq_lit(&e, "jls") || eq_lit(&e, "jp2") || eq_lit(&e, "jpeg")
                || eq_lit(&e, "jpf") || eq_lit(&e, "jpg") || eq_lit(&e, "jpm") || eq_lit(&e, "kdc")
                || eq_lit(&e, "mdc") || eq_lit(&e, "mef") || eq_lit(&e, "mj2") || eq_lit(&e, "mos")
                || eq_lit(&e, "mrw") || eq_lit(&e, "nef") || eq_lit(&e, "nrw") || eq_lit(&e, "orf")
                || eq_lit(&e, "pef") || eq_lit(&e, "pgm") || eq_lit(&e, "png") || eq_lit(&e, "ppm")
                || eq_lit(&e, "raf") || eq_lit(&e, "raw") || eq_lit(&e, "rw2") || eq_lit(&e, "sr2")
                || eq_lit(&e, "srf") || eq_lit(&e, "srw") || eq_lit(&e, "tif") || eq_lit(
                &e,
                "tiff",
            ) || eq_lit(&e, "webp") || eq_lit(&e, "x3f") || eq_lit(&e, "png_") || eq_lit(
                &e,
                "rpgmvp",
            ) || eq_lit(&e, "jbg") || eq_lit(&e, "jb2")
        },
    }
}

/// Whether the path names a file with a recognized video extension,
/// compared case-insensitively.
pub fn is_video(file: &str) -> (r: bool)
    ensures
        r == spec_is_video(file@),
{
    match extension_lowercase(file) {
        None => false,
        Some(e) => {
            eq_lit(&e, "3g2") || eq_lit(&e, "3gp") || eq_lit(&e, "asf") || eq_lit(&e, "avi")
                || eq_lit(&e, "flv") || eq_lit(&e, "m2ts") || eq_lit(&e, "m4v") || eq_lit(
                &e,
                "mjpeg",
            ) || eq_lit(&e, "mkv") || eq_lit(&e, "mov") || eq_lit(&e, "mp4") || eq_lit(&e, "mts")
                || eq_lit(&e, "mxf") || eq_lit(&e, "rm") || eq_lit(&e, "rmvb") || eq_lit(&e, "swf")
                || eq_lit(&e, "ts") || eq_lit(&e, "vob") || eq_lit(&e, "webm") || eq_lit(&e, "wmv")
        },
    }
}

/// Whether the path has no extension at all.
pub fn is_no_extension(file: &str) -> (r: bool)
    ensures
        r == (spec_extension(file@) is None),
{
    match extension_lowercase(file) {
        None => true,
        Some(_) => false,
    }
}

/// Keeps exactly the paths that are media candidates: recognized image or
/// video extensions, and paths without an extension, in their given order.
pub fn filter_media_files(files: Vec<String>) -> (r: Vec<String>)
    ensures
        r@.map_values(|f: String| f@) == files@.map_values(|f: String| f@).filter(
            |p: Seq<char>| spec_is_media(p),
        ),
{
    let mut filtered: Vec<String> = Vec::new();
    let mut i: usize = 0;
    proof {
        assert(files@.map_values(|f: String| f@).take(0) =~= Seq::<Seq<char>>::empty());
        assert(Seq::<Seq<char>>::empty().filter(|p: Seq<char>| spec_is_media(p))
            =~= Seq::<Seq<char>>::empty());
        assert(filtered@.map_values(|f: String| f@) =~= Seq::<Seq<char>>::empty());
    }
    while i < files.len()
        invariant
            i <= files@.len(),
            filtered@.map_values(|f: String| f@) == files@.map_values(|f: String| f@).take(
                i as int,
            ).filter(|p: Seq<char>| spec_is_media(p)),
        decreases files@.len() - i,
    {
        let file = &files[i];
        let keep = is_image(file.as_str()) || is_video(file.as_str()) || is_no_extension(
            file.as_str(),
        );
        let ghost prev = filtered@.map_values(|f: String| f@);
        if keep {
            filtered.push(file.clone());
        }
        proof {
            let m = files@.map_values(|f: String| f@);
            let pred = |p: Seq<char>| spec_is_media(p);
            assert(m.take(i + 1) =~= m.take(i as int) + seq![m[i as int]]);
            Seq::filter_distributes_over_add(m.take(i as int), seq![m[i as int]], pred);
            reveal_with_fuel(Seq::filter, 2);
            assert(seq![m[i as int]].drop_last() =~= Seq::<Seq<char>>::empty());
            if keep {
                assert(seq![m[i as int]].filter(pred) =~= seq![m[i as int]]);
                assert(filtered@.map_values(|f: String| f@) =~= prev + seq![m[i as int]]);
            } else {
                assert(seq![m[i as int]].filter(pred) =~= Seq::<Seq<char>>::empty());
            }
            assert(filtered@.map_values(|f: String| f@) =~= m.take(i + 1).filter(pred));
        }
        i = i + 1;
    }
    proof {
        assert(files@.map_values(|f: String| f@).take(files@.len() as int) =~= files@.map_values(
            |f: String| f@,
        ));
    }
    filtered
}

} // verus!
