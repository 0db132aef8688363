//! Output-path derivation and extension-based input filtering.
//!
//! Paths are plain UTF-8 strings with `/` as the directory separator. The
//! extension of a path is the part of its file name after the last dot,
//! unless that dot is the file name's first character (a leading-dot file
//! has no extension).

use vstd::prelude::*;

verus! {

/// Index where the file name begins: just past the last `/`, or 0 when the
/// path has no `/`.
pub open spec fn file_name_start(s: Seq<char>) -> int
    decreases s.len(),
{
    if s.len() == 0 {
        0
    } else if s.last() == '/' {
        s.len() as int
    } else {
        file_name_start(s.drop_last())
    }
}

/// Index of the last `.` anywhere in the path, or -1 when it has none.
pub open spec fn last_dot(s: Seq<char>) -> int
    decreases s.len(),
{
    if s.len() == 0 {
        -1
    } else if s.last() == '.' {
        s.len() - 1
    } else {
        last_dot(s.drop_last())
    }
}

/// Whether the path's file name has an extension: a `.` that is neither in
/// a directory component nor the file name's first character.
pub open spec fn has_extension(s: Seq<char>) -> bool {
    last_dot(s) > file_name_start(s)
}

/// Index where the file name's stem ends: the extension's dot, or the end
/// of the path when there is no extension.
pub open spec fn stem_end(s: Seq<char>) -> int {
    if has_extension(s) {
        last_dot(s)
    } else {
        s.len() as int
    }
}

/// The extension (without its dot). Meaningful only under
/// `has_extension`.
pub open spec fn extension(s: Seq<char>) -> Seq<char> {
    s.subrange(last_dot(s) + 1, s.len() as int)
}

pub proof fn lemma_file_name_start_bounds(s: Seq<char>)
    ensures
        0 <= file_name_start(s) <= s.len(),
    decreases s.len(),
{
    if s.len() > 0 && s.last() != '/' {
        lemma_file_name_start_bounds(s.drop_last());
    }
}

pub proof fn lemma_last_dot_bounds(s: Seq<char>)
    ensures
        -1 <= last_dot(s) < s.len(),
    decreases s.len(),
{
    if s.len() > 0 && s.last() != '.' {
        lemma_last_dot_bounds(s.drop_last());
    }
}

/// Scans the path once, from the end. Returns the index just past the
/// extension's dot, or `None` when the file name has no extension.
fn find_extension_start(path: &str) -> (r: Option<usize>)
    ensures
        r is Some <==> has_extension(path@),
        match r {
            Some(k) => k as int == last_dot(path@) + 1 && 1 <= k <= path@.len(),
            None => true,
        },
{
    let n = path.unicode_len();
    let ghost s = path@;
    proof {
        assert(s.take(n as int) =~= s);
        lemma_last_dot_bounds(s);
        lemma_file_name_start_bounds(s);
    }
    let mut j: usize = n;
    while j > 0
        invariant
            0 <= j <= n,
            n as int == s.len(),
            s == path@,
            last_dot(s) == last_dot(s.take(j as int)),
            file_name_start(s) == file_name_start(s.take(j as int)),
        decreases j,
    {
        let c = path.get_char(j - 1);
        proof {
            assert(s.take(j as int).drop_last() =~= s.take(j as int - 1));
            assert(s.take(j as int).last() == c);
        }
        if c == '/' {
            proof {
                lemma_last_dot_bounds(s.take(j as int - 1));
            }
            return None;
        }
        if c == '.' {
            // The last dot of the whole path sits at j - 1; the extension
            // exists iff the file name does not begin there.
            if j - 1 == 0 {
                proof {
                    lemma_file_name_start_bounds(s.take(0));
                }
                return None;
            }
            let p = path.get_char(j - 2);
            proof {
                assert(last_dot(s.take(j as int)) == j - 1);
                assert(file_name_start(s.take(j as int)) == file_name_start(s.take(j as int - 1)));
                assert(s.take(j as int - 1).drop_last() =~= s.take(j as int - 2));
                assert(s.take(j as int - 1).last() == p);
            }
            if p == '/' {
                proof {
                    assert(file_name_start(s.take(j as int - 1)) == j - 1);
                }
                return None;
            } else {
                proof {
                    assert(file_name_start(s.take(j as int - 1)) == file_name_start(
                        s.take(j as int - 2),
                    ));
                    lemma_file_name_start_bounds(s.take(j as int - 2));
                }
                return Some(j);
            }
        }
        j = j - 1;
    }
    proof {
        assert(s.take(0) =~= Seq::<char>::empty());
    }
    None
}

/// Index where the stem ends, as an executable counterpart of `stem_end`.
fn stem_end_index(path: &str) -> (k: usize)
    ensures
        k as int == stem_end(path@),
        k <= path@.len(),
{
    proof {
        lemma_last_dot_bounds(path@);
    }
    match find_extension_start(path) {
        Some(k) => k - 1,
        None => path.unicode_len(),
    }
}

/// The sibling path that a transcoded file is written to: same directory,
/// same stem, extension replaced by (or, when there was none, extended
/// with) `webp`.
pub open spec fn webp_path_spec(s: Seq<char>) -> Seq<char> {
    s.take(stem_end(s)) + ".webp"@
}

/// The sibling path of the secondary small preview artifact:
/// `{stem}-thumb.webp` in the same directory.
pub open spec fn thumb_path_spec(s: Seq<char>) -> Seq<char> {
    s.take(stem_end(s)) + "-thumb.webp"@
}

/// Derives the transcoded output path for a source path.
pub fn webp_path(path: &str) -> (r: String)
    ensures
        r@ == webp_path_spec(path@),
{
    let k = stem_end_index(path);
    let stem = path.substring_char(0, k);
    proof {
        assert(stem@ =~= path@.take(stem_end(path@)));
    }
    String::from_str(stem).concat(".webp")
}

/// Derives the thumbnail output path for a source path.
pub fn thumb_path(path: &str) -> (r: String)
    ensures
        r@ == thumb_path_spec(path@),
{
    let k = stem_end_index(path);
    let stem = path.substring_char(0, k);
    proof {
        assert(stem@ =~= path@.take(stem_end(path@)));
    }
    String::from_str(stem).concat("-thumb.webp")
}

/// ASCII-case-insensitive equality of two characters.
pub open spec fn char_eq_ci(x: char, y: char) -> bool {
    x == y || (is_ascii_upper(x) && x as u32 + 32 == y as u32) || (is_ascii_upper(y) && y as u32
        + 32 == x as u32)
}

pub open spec fn is_ascii_upper(c: char) -> bool {
    65 <= c as u32 <= 90
}

/// ASCII-case-insensitive equality of two character sequences.
pub open spec fn eq_ascii_ci(a: Seq<char>, b: Seq<char>) -> bool {
    a.len() == b.len() && (forall|i: int| 0 <= i < a.len() ==> char_eq_ci(a[i], b[i]))
}

fn char_eq_ci_exec(x: char, y: char) -> (r: bool)
    ensures
        r == char_eq_ci(x, y),
{
    let xb = x as u32;
    let yb = y as u32;
    xb == yb || (65 <= xb && xb <= 90 && xb + 32 == yb) || (65 <= yb && yb <= 90 && yb + 32 == xb)
}

/// Compares the characters of `a` and `b` ignoring ASCII case.
fn eq_ignore_ascii_case(a: &str, b: &str) -> (r: bool)
    ensures
        r == eq_ascii_ci(a@, b@),
{
    let na = a.unicode_len();
    let nb = b.unicode_len();
    if na != nb {
        return false;
    }
    let mut i: usize = 0;
    while i < na
        invariant
            0 <= i <= na,
            na as int == a@.len(),
            na == nb,
            nb as int == b@.len(),
            forall|k: int| 0 <= k < i ==> char_eq_ci(a@[k], b@[k]),
        decreases na - i,
    {
        if !char_eq_ci_exec(a.get_char(i), b.get_char(i)) {
            return false;
        }
        i = i + 1;
    }
    true
}

/// The extension allow-list for conversion, compared ignoring ASCII case.
pub open spec fn convertible_ext(e: Seq<char>) -> bool {
    ||| eq_ascii_ci(e, "jpg"@)
    ||| eq_ascii_ci(e, "jpeg"@)
    ||| eq_ascii_ci(e, "png"@)
    ||| eq_ascii_ci(e, "gif"@)
    ||| eq_ascii_ci(e, "bmp"@)
    ||| eq_ascii_ci(e, "tiff"@)
    ||| eq_ascii_ci(e, "tif"@)
}

/// Whether a path names a source the pipeline converts.
pub open spec fn is_convertible_spec(s: Seq<char>) -> bool {
    has_extension(s) && convertible_ext(extension(s))
}

/// Whether a path's extension is `gif` (ignoring ASCII case); only such
/// sources can be multi-frame.
pub open spec fn is_gif_name(s: Seq<char>) -> bool {
    has_extension(s) && eq_ascii_ci(extension(s), "gif"@)
}

/// Tests whether the path's extension is on the conversion allow-list.
pub fn is_convertible(path: &str) -> (r: bool)
    ensures
        r == is_convertible_spec(path@),
{
    proof {
        lemma_last_dot_bounds(path@);
    }
    match find_extension_start(path) {
        None => false,
        Some(k) => {
            let e = path.substring_char(k, path.unicode_len());
            proof {
                assert(e@ =~= extension(path@));
            }
            eq_ignore_ascii_case(e, "jpg") || eq_ignore_ascii_case(e, "jpeg")
                || eq_ignore_ascii_case(e, "png") || eq_ignore_ascii_case(e, "gif")
                || eq_ignore_ascii_case(e, "bmp") || eq_ignore_ascii_case(e, "tiff")
                || eq_ignore_ascii_case(e, "tif")
        },
    }
}

/// Tests whether the path names a GIF source.
pub fn has_gif_extension(path: &str) -> (r: bool)
    ensures
        r == is_gif_name(path@),
{
    proof {
        lemma_last_dot_bounds(path@);
    }
    match find_extension_start(path) {
        None => false,
        Some(k) => {
            let e = path.substring_char(k, path.unicode_len());
            proof {
                assert(e@ =~= extension(path@));
            }
            eq_ignore_ascii_case(e, "gif")
        },
    }
}

} // verus!
