//! Inferring the output encoding from a save path: the extension is the part
//! of the path after the last `.`, provided that dot comes after the last `/`
//! and does not open the file name itself (a leading dot names a hidden file,
//! not an extension). The extension is matched case-insensitively against the
//! encoders the save pipeline offers.

use vstd::prelude::*;

verus! {

/// The encodings a save request can ask for by its path's extension.
#[derive(Clone, Copy, Debug, PartialEq, Eq, Structural)]
pub enum SaveFormat {
    Png,
    Jpeg,
    Gif,
    Bmp,
    Tiff,
    Tga,
    WebP,
    Qoi,
    Avif,
    Ico,
    Pnm,
}

/// A distinct number for each format, to name encoder results by.
pub open spec fn format_id(f: SaveFormat) -> int {
    match f {
        SaveFormat::Png => 0,
        SaveFormat::Jpeg => 1,
        SaveFormat::Gif => 2,
        SaveFormat::Bmp => 3,
        SaveFormat::Tiff => 4,
        SaveFormat::Tga => 5,
        SaveFormat::WebP => 6,
        SaveFormat::Qoi => 7,
        SaveFormat::Avif => 8,
        SaveFormat::Ico => 9,
        SaveFormat::Pnm => 10,
    }
}

/// Whether the encoder behind a format writes the same bytes on every
/// machine. The AVIF encoder splits the image into tiles by the running
/// machine's core count, so its output is a function of more than the image;
/// every other encoder here is a function of the image alone.
pub open spec fn encoder_is_deterministic(f: SaveFormat) -> bool {
    f != SaveFormat::Avif
}

/// Case-insensitive match of one character against a lower-case ASCII letter:
/// equal outright, or an ASCII upper-case letter whose lower-case form is it.
pub open spec fn char_ci_eq(a: char, b: char) -> bool {
    a == b || (65 <= a as u32 && a as u32 <= 90 && a as u32 + 32 == b as u32)
}

/// Case-insensitive equality of an extension against a lower-case candidate.
pub open spec fn ext_eq_ci(e: Seq<char>, lower: Seq<char>) -> bool {
    e.len() == lower.len() && (forall|i: int| 0 <= i < e.len() ==> char_ci_eq(e[i], lower[i]))
}

/// Scanning the first `i` characters of `path` from the end: the index where
/// the extension starts, if one is there before a `/` intervenes.
pub open spec fn ext_start_rec(path: Seq<char>, i: int) -> Option<int>
    decreases i,
{
    if i <= 0 {
        Option::None
    } else if path[i - 1] == '/' {
        Option::None
    } else if path[i - 1] == '.' {
        if i - 1 == 0 || path[i - 2] == '/' {
            Option::None
        } else {
            Option::Some(i)
        }
    } else {
        ext_start_rec(path, i - 1)
    }
}

/// The extension of a path, by the rule above; `None` where the path has no
/// extension at all.
pub open spec fn path_extension(path: Seq<char>) -> Option<Seq<char>> {
    match ext_start_rec(path, path.len() as int) {
        Option::None => Option::None,
        Option::Some(s) => Option::Some(path.subrange(s, path.len() as int)),
    }
}

/// The format an extension selects, matched case-insensitively; the extension
/// aliases are those the underlying encoders answer to.
pub open spec fn spec_format_of_ext(e: Seq<char>) -> Option<SaveFormat> {
    if ext_eq_ci(e, "png"@) || ext_eq_ci(e, "apng"@) {
        Option::Some(SaveFormat::Png)
    } else if ext_eq_ci(e, "jpg"@) || ext_eq_ci(e, "jpeg"@) || ext_eq_ci(e, "jfif"@) {
        Option::Some(SaveFormat::Jpeg)
    } else if ext_eq_ci(e, "gif"@) {
        Option::Some(SaveFormat::Gif)
    } else if ext_eq_ci(e, "bmp"@) {
        Option::Some(SaveFormat::Bmp)
    } else if ext_eq_ci(e, "tif"@) || ext_eq_ci(e, "tiff"@) {
        Option::Some(SaveFormat::Tiff)
    } else if ext_eq_ci(e, "tga"@) {
        Option::Some(SaveFormat::Tga)
    } else if ext_eq_ci(e, "webp"@) {
        Option::Some(SaveFormat::WebP)
    } else if ext_eq_ci(e, "qoi"@) {
        Option::Some(SaveFormat::Qoi)
    } else if ext_eq_ci(e, "avif"@) {
        Option::Some(SaveFormat::Avif)
    } else if ext_eq_ci(e, "ico"@) {
        Option::Some(SaveFormat::Ico)
    } else if ext_eq_ci(e, "pam"@) || ext_eq_ci(e, "pnm"@) || ext_eq_ci(e, "ppm"@) || ext_eq_ci(
        e,
        "pgm"@,
    ) || ext_eq_ci(e, "pbm"@) {
        Option::Some(SaveFormat::Pnm)
    } else {
        Option::None
    }
}

/// The format a whole path selects: that of its extension, if it has one that
/// names a supported encoder.
pub open spec fn spec_format_for_path(path: Seq<char>) -> Option<SaveFormat> {
    match path_extension(path) {
        Option::None => Option::None,
        Option::Some(e) => spec_format_of_ext(e),
    }
}

/// Case-insensitive comparison of one character, as `char_ci_eq` states it.
fn char_matches_ci(a: char, b: char) -> (r: bool)
    ensures
        r == char_ci_eq(a, b),
{
    a == b || (a as u32 >= 65 && a as u32 <= 90 && a as u32 + 32 == b as u32)
}

/// Whether the tail of `path` from `start` equals `lower`, case-insensitively.
fn ext_matches(path: &str, start: usize, lower: &str) -> (r: bool)
    requires
        start <= path@.len(),
    ensures
        r == ext_eq_ci(path@.subrange(start as int, path@.len() as int), lower@),
{
    let n = path.unicode_len();
    let m = lower.unicode_len();
    if n - start != m {
        return false;
    }
    let mut k: usize = 0;
    while k < m
        invariant
            start + m == n,
            m == lower@.len(),
            n == path@.len(),
            k <= m,
            forall|i: int|
                0 <= i < k ==> char_ci_eq(
                    path@.subrange(start as int, path@.len() as int)[i],
                    lower@[i],
                ),
        decreases m - k,
    {
        let a = path.get_char(start + k);
        let b = lower.get_char(k);
        if !char_matches_ci(a, b) {
            return false;
        }
        k = k + 1;
    }
    true
}

/// Scans `path[..i]` from the end for the start of an extension, as
/// `ext_start_rec` states it.
fn ext_start(path: &str, i: usize) -> (r: Option<usize>)
    requires
        i <= path@.len(),
    ensures
        match r {
            Option::Some(s) => ext_start_rec(path@, i as int) == Option::Some(s as int) && s
                <= path@.len(),
            Option::None => ext_start_rec(path@, i as int) is None,
        },
    decreases i,
{
    if i == 0 {
        Option::None
    } else {
        let c = path.get_char(i - 1);
        if c == '/' {
            Option::None
        } else if c == '.' {
            if i == 1 {
                Option::None
            } else if path.get_char(i - 2) == '/' {
                Option::None
            } else {
                Option::Some(i)
            }
        } else {
            ext_start(path, i - 1)
        }
    }
}

/// Where the scan finds an extension, its start lies past the dot, which has
/// a character before it.
pub proof fn lemma_ext_start_bounds(path: Seq<char>, i: int)
    requires
        ext_start_rec(path, i) is Some,
    ensures
        2 <= ext_start_rec(path, i)->Some_0 <= i,
    decreases i,
{
    if 0 < i && path[i - 1] != '/' && path[i - 1] != '.' {
        lemma_ext_start_bounds(path, i - 1);
    }
}

/// The scan of the first `i` characters of a suffix is unmoved by whatever
/// stands in front of it: it inspects only the suffix's own characters.
pub proof fn lemma_ext_scan_in_suffix(prefix: Seq<char>, suffix: Seq<char>, i: int)
    requires
        0 <= i <= suffix.len(),
        ext_start_rec(suffix, i) is Some,
    ensures
        ext_start_rec(prefix + suffix, prefix.len() + i) == Some(
            prefix.len() + ext_start_rec(suffix, i)->Some_0,
        ),
    decreases i,
{
    lemma_ext_start_bounds(suffix, i);
    let combined = prefix + suffix;
    let j = prefix.len() + i;
    assert(combined[j - 1] == suffix[i - 1]);
    if suffix[i - 1] == '.' {
        assert(combined[j - 2] == suffix[i - 2]);
    } else {
        lemma_ext_scan_in_suffix(prefix, suffix, i - 1);
    }
}

/// Law: a path's extension is decided by its tail alone — prepending anything
/// to a path that has an extension leaves that extension as it is. So a
/// resolved save path keeps the extension the user wrote after the shorthand.
pub proof fn lemma_path_extension_append(prefix: Seq<char>, suffix: Seq<char>)
    requires
        path_extension(suffix) is Some,
    ensures
        path_extension(prefix + suffix) == path_extension(suffix),
        spec_format_for_path(prefix + suffix) == spec_format_for_path(suffix),
{
    let i = suffix.len() as int;
    lemma_ext_start_bounds(suffix, i);
    lemma_ext_scan_in_suffix(prefix, suffix, i);
    let s = ext_start_rec(suffix, i)->Some_0;
    assert((prefix + suffix).len() as int == prefix.len() + i);
    assert((prefix + suffix).subrange(prefix.len() + s, prefix.len() + i) =~= suffix.subrange(
        s,
        i,
    ));
}

/// The format the path's extension selects, or nothing when the path has no
/// extension or the extension names no supported encoder.
pub fn format_for_path(path: &str) -> (r: Option<SaveFormat>)
    ensures
        r == spec_format_for_path(path@),
{
    let n = path.unicode_len();
    match ext_start(path, n) {
        Option::None => Option::None,
        Option::Some(s) => {
            if ext_matches(path, s, "png") || ext_matches(path, s, "apng") {
                Option::Some(SaveFormat::Png)
            } else if ext_matches(path, s, "jpg") || ext_matches(path, s, "jpeg") || ext_matches(
                path,
                s,
                "jfif",
            ) {
                Option::Some(SaveFormat::Jpeg)
            } else if ext_matches(path, s, "gif") {
                Option::Some(SaveFormat::Gif)
            } else if ext_matches(path, s, "bmp") {
                Option::Some(SaveFormat::Bmp)
            } else if ext_matches(path, s, "tif") || ext_matches(path, s, "tiff") {
                Option::Some(SaveFormat::Tiff)
            } else if ext_matches(path, s, "tga") {
                Option::Some(SaveFormat::Tga)
            } else if ext_matches(path, s, "webp") {
                Option::Some(SaveFormat::WebP)
            } else if ext_matches(path, s, "qoi") {
                Option::Some(SaveFormat::Qoi)
            } else if ext_matches(path, s, "avif") {
                Option::Some(SaveFormat::Avif)
            } else if ext_matches(path, s, "ico") {
                Option::Some(SaveFormat::Ico)
            } else if ext_matches(path, s, "pam") || ext_matches(path, s, "pnm") || ext_matches(
                path,
                s,
                "ppm",
            ) || ext_matches(path, s, "pgm") || ext_matches(path, s, "pbm") {
                Option::Some(SaveFormat::Pnm)
            } else {
                Option::None
            }
        },
    }
}

} // verus!
