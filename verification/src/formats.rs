//! Format identifiers and extension checks.
//!
//! A task's format identifier is kept as the text the user configured (it
//! becomes the output extension) and is classified case-insensitively into
//! the supported encoder kinds: `jpg`/`jpeg`, `png` and `webp`. Input files
//! are admitted by the same case-insensitive match of their extension
//! against a list of supported ones.

use crate::errors::ValidationError;
use crate::naming::ext_chars;
use crate::naming::file_name_chars;
use vstd::prelude::*;
use vstd::string::StrSliceExecFns;
use vstd::string::StringExecFns;

verus! {

/// The encoder a format identifier selects.
#[derive(Clone, Copy, Debug, PartialEq, Eq, Structural)]
pub enum FormatKind {
    Jpeg,
    Png,
    Webp,
    Unsupported,
}

/// An ASCII letter lowered; anything else unchanged.
pub open spec fn lower_char(c: char) -> char {
    if 'A' as u32 <= c as u32 && c as u32 <= 'Z' as u32 {
        (c as u32 + 32) as char
    } else {
        c
    }
}

/// A string with its ASCII letters lowered.
pub open spec fn lower_chars(s: Seq<char>) -> Seq<char> {
    s.map_values(|c: char| lower_char(c))
}

/// The encoder kind of a format identifier, matched case-insensitively.
pub open spec fn classify_spec(fmt: Seq<char>) -> FormatKind {
    let l = lower_chars(fmt);
    if l == seq!['j', 'p', 'g'] || l == seq!['j', 'p', 'e', 'g'] {
        FormatKind::Jpeg
    } else if l == seq!['p', 'n', 'g'] {
        FormatKind::Png
    } else if l == seq!['w', 'e', 'b', 'p'] {
        FormatKind::Webp
    } else {
        FormatKind::Unsupported
    }
}

/// Whether a path's extension, lowered, occurs in a list of extensions.
pub open spec fn ext_valid_spec(path: Seq<char>, valid: Seq<&str>) -> bool {
    match ext_chars(file_name_chars(path)) {
        Some(e) => exists|j: int| 0 <= j < valid.len() && lower_chars(e) == valid[j]@,
        None => false,
    }
}

/// Lowers one ASCII letter.
pub fn to_lower_char(c: char) -> (r: char)
    ensures
        r == lower_char(c),
{
    let u = c as u32;
    if 65 <= u && u <= 90 {
        ((u + 32) as u8) as char
    } else {
        c
    }
}

/// Whether `s`, with its ASCII letters lowered, equals `t` exactly.
pub fn lower_eq(s: &str, t: &str) -> (r: bool)
    ensures
        r == (lower_chars(s@) == t@),
{
    let n = s.unicode_len();
    if n != t.unicode_len() {
        proof {
            assert(lower_chars(s@).len() == s@.len());
        }
        return false;
    }
    let mut i: usize = 0;
    while i < n
        invariant
            i <= n,
            n == s@.len(),
            n == t@.len(),
            forall|j: int| 0 <= j < i ==> lower_char(s@[j]) == t@[j],
        decreases n - i,
    {
        if to_lower_char(s.get_char(i)) != t.get_char(i) {
            proof {
                assert(lower_chars(s@)[i as int] == lower_char(s@[i as int]));
            }
            return false;
        }
        i += 1;
    }
    proof {
        assert(lower_chars(s@) =~= t@);
    }
    true
}

/// Classifies a format identifier into its encoder kind.
pub fn classify_format(fmt: &str) -> (r: FormatKind)
    ensures
        r == classify_spec(fmt@),
{
    proof {
        reveal_strlit("jpg");
        reveal_strlit("jpeg");
        reveal_strlit("png");
        reveal_strlit("webp");
        assert("jpg"@ =~= seq!['j', 'p', 'g']);
        assert("jpeg"@ =~= seq!['j', 'p', 'e', 'g']);
        assert("png"@ =~= seq!['p', 'n', 'g']);
        assert("webp"@ =~= seq!['w', 'e', 'b', 'p']);
    }
    if lower_eq(fmt, "jpg") || lower_eq(fmt, "jpeg") {
        FormatKind::Jpeg
    } else if lower_eq(fmt, "png") {
        FormatKind::Png
    } else if lower_eq(fmt, "webp") {
        FormatKind::Webp
    } else {
        FormatKind::Unsupported
    }
}

/// Admits a path whose extension, lowered, occurs in `valid_ext`; rejects
/// every other path.
pub fn validate_image_file(path: &str, valid_ext: &Vec<&str>) -> (r: Result<
    (),
    ValidationError,
>)
    ensures
        r is Ok <==> ext_valid_spec(path@, valid_ext@),
        r matches Err(e) ==> e matches ValidationError::UnsupportedFile { path: p } && p@
            == path@,
{
    if let Some(ext) = crate::naming::extension_of(path) {
        let mut j: usize = 0;
        while j < valid_ext.len()
            invariant
                j <= valid_ext.len(),
                Some(ext@) == ext_chars(file_name_chars(path@)),
                forall|k: int| 0 <= k < j ==> lower_chars(ext@) != valid_ext@[k]@,
            decreases valid_ext.len() - j,
        {
            if lower_eq(ext.as_str(), valid_ext[j]) {
                proof {
                    assert(0 <= j < valid_ext@.len() && lower_chars(ext@) == valid_ext@[
                        j as int
                    ]@);
                }
                return Ok(());
            }
            j += 1;
        }
        Err(ValidationError::UnsupportedFile { path: String::from_str(path) })
    } else {
        Err(ValidationError::UnsupportedFile { path: String::from_str(path) })
    }
}

} // verus!
