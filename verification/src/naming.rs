//! Deterministic output naming.
//!
//! Every task writes to `<output_parent>/<input_stem>_<scale>pct.<format>`,
//! where `output_parent` is the configured output directory, or the input
//! file's own directory when none is configured. Paths are UTF-8 strings
//! with `/` as the component separator; the final component of a path is
//! its file name, the part of the file name after its last interior dot is
//! the extension, and the part before it is the stem.

use vstd::prelude::*;
use vstd::string::StrSliceExecFns;
use vstd::string::StringExecFns;

verus! {

/// The character for one decimal digit.
pub open spec fn dec_digit(d: int) -> char {
    if d == 0 {
        '0'
    } else if d == 1 {
        '1'
    } else if d == 2 {
        '2'
    } else if d == 3 {
        '3'
    } else if d == 4 {
        '4'
    } else if d == 5 {
        '5'
    } else if d == 6 {
        '6'
    } else if d == 7 {
        '7'
    } else if d == 8 {
        '8'
    } else {
        '9'
    }
}

/// The decimal rendering of a non-negative integer, most significant digit
/// first, with no leading zeros (a lone zero for 0).
pub open spec fn dec_chars(n: int) -> Seq<char>
    decreases n,
{
    if n < 10 {
        seq![dec_digit(n)]
    } else {
        dec_chars(n / 10).push(dec_digit(n % 10))
    }
}

/// The index of the last occurrence of `c` in `p`, or -1 when `c` does not
/// occur.
pub open spec fn last_index(p: Seq<char>, c: char) -> int
    decreases p.len(),
{
    if p.len() == 0 {
        -1
    } else if p[p.len() - 1] == c {
        p.len() - 1
    } else {
        last_index(p.drop_last(), c)
    }
}

/// `last_index` points at an occurrence and nothing later is one.
pub proof fn lemma_last_index(p: Seq<char>, c: char)
    ensures
        -1 <= last_index(p, c) < p.len(),
        last_index(p, c) >= 0 ==> p[last_index(p, c)] == c,
        forall|j: int| last_index(p, c) < j < p.len() ==> p[j] != c,
    decreases p.len(),
{
    if p.len() > 0 && p[p.len() - 1] != c {
        lemma_last_index(p.drop_last(), c);
        assert(forall|j: int| 0 <= j < p.len() - 1 ==> p.drop_last()[j] == p[j]);
    }
}

/// Any index with the "last occurrence" shape is `last_index`.
pub proof fn lemma_last_index_agrees(p: Seq<char>, c: char, k: int)
    requires
        -1 <= k < p.len(),
        k >= 0 ==> p[k] == c,
        forall|j: int| k < j < p.len() ==> p[j] != c,
    ensures
        last_index(p, c) == k,
{
    lemma_last_index(p, c);
}

/// The final component of a path: everything after its last `/`.
pub open spec fn file_name_chars(p: Seq<char>) -> Seq<char> {
    p.subrange(last_index(p, '/') + 1, p.len() as int)
}

/// The directory part of a path: everything before its last `/`, a lone `/`
/// for a file directly under the root, and the empty string for a bare file
/// name.
pub open spec fn parent_chars(p: Seq<char>) -> Seq<char> {
    let k = last_index(p, '/');
    if k == -1 {
        Seq::empty()
    } else if k == 0 {
        seq!['/']
    } else {
        p.subrange(0, k)
    }
}

/// The stem of a file name: everything before its last interior dot. A name
/// whose only dot is leading, or that has no dot, is its own stem.
pub open spec fn stem_chars(name: Seq<char>) -> Seq<char> {
    let d = last_index(name, '.');
    if d >= 1 {
        name.subrange(0, d)
    } else {
        name
    }
}

/// The extension of a file name: everything after its last interior dot, or
/// nothing when the name has no dot past its first character.
pub open spec fn ext_chars(name: Seq<char>) -> Option<Seq<char>> {
    let d = last_index(name, '.');
    if d >= 1 {
        Some(name.subrange(d + 1, name.len() as int))
    } else {
        None
    }
}

/// The output file name for one task: `<stem>_<scale>pct.<format>`.
pub open spec fn output_name_spec(stem: Seq<char>, scale: u32, fmt: Seq<char>) -> Seq<char> {
    stem + seq!['_'] + dec_chars(scale as int) + seq!['p', 'c', 't', '.'] + fmt
}

/// A path joined from a parent and a file name, with exactly one separator
/// between them.
pub open spec fn join_spec(parent: Seq<char>, name: Seq<char>) -> Seq<char> {
    if parent.len() == 0 {
        name
    } else if parent.last() == '/' {
        parent + name
    } else {
        parent + seq!['/'] + name
    }
}

/// The full output path for one task of one input file: the configured
/// output directory, or the input's own directory, joined with the task's
/// output name.
pub open spec fn output_path_spec(
    input: Seq<char>,
    out_dir: Option<Seq<char>>,
    scale: u32,
    fmt: Seq<char>,
) -> Seq<char> {
    let parent = match out_dir {
        Some(d) => d,
        None => parent_chars(input),
    };
    join_spec(parent, output_name_spec(stem_chars(file_name_chars(input)), scale, fmt))
}

/// Whether a character is a decimal digit.
pub open spec fn is_digit_char(c: char) -> bool {
    c == '0' || c == '1' || c == '2' || c == '3' || c == '4' || c == '5' || c == '6' || c == '7'
        || c == '8' || c == '9'
}

/// Every character of a decimal rendering is a digit.
pub proof fn lemma_dec_chars_digits(n: int)
    ensures
        forall|i: int| 0 <= i < dec_chars(n).len() ==> is_digit_char(dec_chars(n)[i]),
    decreases n,
{
    if n < 10 {
        assert(dec_chars(n)[0] == dec_digit(n));
    } else {
        lemma_dec_chars_digits(n / 10);
        assert forall|i: int| 0 <= i < dec_chars(n).len() implies is_digit_char(
            dec_chars(n)[i],
        ) by {
            if i < dec_chars(n).len() - 1 {
                assert(dec_chars(n)[i] == dec_chars(n / 10)[i]);
            } else {
                assert(dec_chars(n)[i] == dec_digit(n % 10));
            }
        }
    }
}

/// A decimal rendering is never empty.
pub proof fn lemma_dec_chars_nonempty(n: int)
    ensures
        dec_chars(n).len() >= 1,
    decreases n,
{
    if n >= 10 {
        lemma_dec_chars_nonempty(n / 10);
    }
}

/// Distinct digits render as distinct characters.
pub proof fn lemma_dec_digit_injective(d1: int, d2: int)
    requires
        0 <= d1 < 10,
        0 <= d2 < 10,
        dec_digit(d1) == dec_digit(d2),
    ensures
        d1 == d2,
{
}

/// Decimal rendering is injective on the non-negative integers.
pub proof fn lemma_dec_chars_injective(a: int, b: int)
    requires
        0 <= a,
        0 <= b,
        dec_chars(a) == dec_chars(b),
    ensures
        a == b,
    decreases a,
{
    lemma_dec_chars_nonempty(a);
    lemma_dec_chars_nonempty(b);
    if a < 10 && b < 10 {
        assert(dec_chars(a)[0] == dec_digit(a));
        assert(dec_chars(b)[0] == dec_digit(b));
        lemma_dec_digit_injective(a, b);
    } else if a >= 10 && b >= 10 {
        assert(dec_chars(a).last() == dec_digit(a % 10));
        assert(dec_chars(b).last() == dec_digit(b % 10));
        lemma_dec_digit_injective(a % 10, b % 10);
        assert(dec_chars(a).drop_last() =~= dec_chars(a / 10));
        assert(dec_chars(b).drop_last() =~= dec_chars(b / 10));
        lemma_dec_chars_injective(a / 10, b / 10);
    } else if a < 10 {
        lemma_dec_chars_nonempty(b / 10);
        assert(dec_chars(b).len() >= 2);
        assert(false);
    } else {
        lemma_dec_chars_nonempty(a / 10);
        assert(dec_chars(a).len() >= 2);
        assert(false);
    }
}

/// Two sequences that share a prefix are equal beyond it.
proof fn lemma_cancel_prefix(x: Seq<char>, u: Seq<char>, v: Seq<char>)
    requires
        x + u == x + v,
    ensures
        u == v,
{
    assert((x + u).len() == (x + v).len());
    assert((x + u).len() == x.len() + u.len());
    assert((x + v).len() == x.len() + v.len());
    assert(u.len() == v.len());
    assert forall|i: int| 0 <= i < u.len() implies u[i] == v[i] by {
        assert((x + u)[x.len() + i] == u[i]);
        assert((x + v)[x.len() + i] == v[i]);
    }
    assert(u =~= v);
}

/// A run of digits followed by a non-digit is delimited: if two such
/// concatenations are equal, the runs and the remainders are equal.
proof fn lemma_digit_run(a: Seq<char>, ra: Seq<char>, b: Seq<char>, rb: Seq<char>)
    requires
        forall|i: int| 0 <= i < a.len() ==> is_digit_char(a[i]),
        forall|i: int| 0 <= i < b.len() ==> is_digit_char(b[i]),
        ra.len() > 0,
        rb.len() > 0,
        !is_digit_char(ra[0]),
        !is_digit_char(rb[0]),
        a + ra == b + rb,
    ensures
        a == b,
        ra == rb,
{
    if a.len() < b.len() {
        assert((a + ra)[a.len() as int] == ra[0]);
        assert((b + rb)[a.len() as int] == b[a.len() as int]);
        assert(false);
    }
    if b.len() < a.len() {
        assert((b + rb)[b.len() as int] == rb[0]);
        assert((a + ra)[b.len() as int] == a[b.len() as int]);
        assert(false);
    }
    assert(a =~= b) by {
        assert forall|i: int| 0 <= i < a.len() implies a[i] == b[i] by {
            assert((a + ra)[i] == a[i]);
            assert((b + rb)[i] == b[i]);
        }
    }
    lemma_cancel_prefix(a, ra, rb);
}

/// No two distinct tasks of one input file write to the same output name:
/// the name determines the task's scale and format.
pub proof fn lemma_output_names_distinct(
    stem: Seq<char>,
    s1: u32,
    f1: Seq<char>,
    s2: u32,
    f2: Seq<char>,
)
    requires
        s1 != s2 || f1 != f2,
    ensures
        output_name_spec(stem, s1, f1) != output_name_spec(stem, s2, f2),
{
    if output_name_spec(stem, s1, f1) == output_name_spec(stem, s2, f2) {
        let x = stem + seq!['_'];
        let pct = seq!['p', 'c', 't', '.'];
        let t1 = dec_chars(s1 as int) + (pct + f1);
        let t2 = dec_chars(s2 as int) + (pct + f2);
        assert(output_name_spec(stem, s1, f1) =~= x + t1);
        assert(output_name_spec(stem, s2, f2) =~= x + t2);
        lemma_cancel_prefix(x, t1, t2);
        lemma_dec_chars_digits(s1 as int);
        lemma_dec_chars_digits(s2 as int);
        assert((pct + f1)[0] == 'p');
        assert((pct + f2)[0] == 'p');
        lemma_digit_run(dec_chars(s1 as int), pct + f1, dec_chars(s2 as int), pct + f2);
        lemma_dec_chars_injective(s1 as int, s2 as int);
        lemma_cancel_prefix(pct, f1, f2);
        assert(false);
    }
}

/// Under one output parent, no two distinct tasks of one input file write
/// to the same output path.
pub proof fn lemma_output_paths_distinct(
    parent: Seq<char>,
    stem: Seq<char>,
    s1: u32,
    f1: Seq<char>,
    s2: u32,
    f2: Seq<char>,
)
    requires
        s1 != s2 || f1 != f2,
    ensures
        join_spec(parent, output_name_spec(stem, s1, f1)) != join_spec(
            parent,
            output_name_spec(stem, s2, f2),
        ),
{
    let n1 = output_name_spec(stem, s1, f1);
    let n2 = output_name_spec(stem, s2, f2);
    lemma_output_names_distinct(stem, s1, f1, s2, f2);
    if join_spec(parent, n1) == join_spec(parent, n2) {
        if parent.len() == 0 {
            assert(n1 == n2);
        } else if parent.last() == '/' {
            lemma_cancel_prefix(parent, n1, n2);
        } else {
            assert(parent + seq!['/'] + n1 =~= (parent + seq!['/']) + n1);
            assert(parent + seq!['/'] + n2 =~= (parent + seq!['/']) + n2);
            lemma_cancel_prefix(parent + seq!['/'], n1, n2);
        }
        assert(false);
    }
}

/// The index of the last occurrence of `c` in `s`, if any.
pub fn last_index_of(s: &str, c: char) -> (r: Option<usize>)
    ensures
        match r {
            Some(i) => i == last_index(s@, c) && i < s@.len() && s@[i as int] == c,
            None => last_index(s@, c) == -1,
        },
{
    let n = s.unicode_len();
    let mut best: Option<usize> = None;
    let mut i: usize = 0;
    while i < n
        invariant
            i <= n,
            n == s@.len(),
            match best {
                Some(b) => b < i && s@[b as int] == c && forall|j: int| b < j < i ==> s@[j] != c,
                None => forall|j: int| 0 <= j < i ==> s@[j] != c,
            },
        decreases n - i,
    {
        if s.get_char(i) == c {
            best = Some(i);
        }
        i += 1;
    }
    proof {
        match best {
            Some(b) => lemma_last_index_agrees(s@, c, b as int),
            None => lemma_last_index_agrees(s@, c, -1),
        }
    }
    best
}

/// The final component of a path.
pub fn file_name_of(path: &str) -> (r: String)
    ensures
        r@ == file_name_chars(path@),
{
    let n = path.unicode_len();
    let part = match last_index_of(path, '/') {
        Some(k) => path.substring_char(k + 1, n),
        None => path,
    };
    String::from_str(part)
}

/// The stem of a path's final component.
pub fn file_stem_of(path: &str) -> (r: String)
    ensures
        r@ == stem_chars(file_name_chars(path@)),
{
    let name = file_name_of(path);
    match last_index_of(name.as_str(), '.') {
        Some(d) if d >= 1 => String::from_str(name.as_str().substring_char(0, d)),
        _ => name,
    }
}

/// The extension of a path's final component.
pub fn extension_of(path: &str) -> (r: Option<String>)
    ensures
        match r {
            Some(e) => ext_chars(file_name_chars(path@)) == Some(e@),
            None => ext_chars(file_name_chars(path@)) is None,
        },
{
    let name = file_name_of(path);
    let n = name.as_str().unicode_len();
    match last_index_of(name.as_str(), '.') {
        Some(d) if d >= 1 => Some(String::from_str(name.as_str().substring_char(d + 1, n))),
        _ => None,
    }
}

/// The directory part of a path.
pub fn parent_of(path: &str) -> (r: String)
    ensures
        r@ == parent_chars(path@),
{
    match last_index_of(path, '/') {
        Some(k) if k >= 1 => String::from_str(path.substring_char(0, k)),
        Some(_) => {
            let s = String::from_str("/");
            proof {
                reveal_strlit("/");
                assert(s@ =~= parent_chars(path@));
            }
            s
        },
        None => {
            let s = String::new();
            proof {
                assert(s@ =~= parent_chars(path@));
            }
            s
        },
    }
}

/// Joins a parent directory and a file name with exactly one separator.
pub fn join_path(parent: &str, name: &str) -> (r: String)
    ensures
        r@ == join_spec(parent@, name@),
{
    let n = parent.unicode_len();
    if n == 0 {
        return String::from_str(name);
    }
    let mut s = String::from_str(parent);
    if parent.get_char(n - 1) != '/' {
        s.append("/");
        proof {
            reveal_strlit("/");
        }
    }
    s.append(name);
    proof {
        assert(s@ =~= join_spec(parent@, name@));
    }
    s
}

/// A file name shortened for the progress display: names over 35
/// characters keep their first 20 and last 12 around an ellipsis.
pub open spec fn display_name_spec(name: Seq<char>) -> Seq<char> {
    if name.len() > 35 {
        name.subrange(0, 20) + seq!['.', '.', '.'] + name.subrange(
            name.len() - 12,
            name.len() as int,
        )
    } else {
        name
    }
}

/// Shortens a file name for the progress display.
pub fn display_name(name: &str) -> (r: String)
    ensures
        r@ == display_name_spec(name@),
{
    let n = name.unicode_len();
    if n > 35 {
        let head = name.substring_char(0, 20);
        let tail = name.substring_char(n - 12, n);
        let mut s = String::from_str(head);
        s.append("...");
        s.append(tail);
        proof {
            reveal_strlit("...");
            assert(s@ =~= display_name_spec(name@));
        }
        s
    } else {
        String::from_str(name)
    }
}

/// A one-character string for a decimal digit.
fn digit_str(d: u32) -> (r: &'static str)
    requires
        d < 10,
    ensures
        r@ == seq![dec_digit(d as int)],
{
    let r: &'static str = if d == 0 {
        "0"
    } else if d == 1 {
        "1"
    } else if d == 2 {
        "2"
    } else if d == 3 {
        "3"
    } else if d == 4 {
        "4"
    } else if d == 5 {
        "5"
    } else if d == 6 {
        "6"
    } else if d == 7 {
        "7"
    } else if d == 8 {
        "8"
    } else {
        "9"
    };
    proof {
        reveal_strlit("0");
        reveal_strlit("1");
        reveal_strlit("2");
        reveal_strlit("3");
        reveal_strlit("4");
        reveal_strlit("5");
        reveal_strlit("6");
        reveal_strlit("7");
        reveal_strlit("8");
        reveal_strlit("9");
        assert(r@ =~= seq![dec_digit(d as int)]);
    }
    r
}

/// The decimal rendering of an unsigned integer.
pub fn u32_to_string(n: u32) -> (r: String)
    ensures
        r@ == dec_chars(n as int),
    decreases n,
{
    if n < 10 {
        String::from_str(digit_str(n))
    } else {
        let mut s = u32_to_string(n / 10);
        s.append(digit_str(n % 10));
        proof {
            assert(s@ =~= dec_chars(n as int));
        }
        s
    }
}

/// The output file name for one task.
pub fn output_name(stem: &str, scale: u32, format: &str) -> (r: String)
    ensures
        r@ == output_name_spec(stem@, scale, format@),
{
    let mut s = String::from_str(stem);
    s.append("_");
    let num = u32_to_string(scale);
    s.append(num.as_str());
    s.append("pct.");
    s.append(format);
    proof {
        reveal_strlit("_");
        reveal_strlit("pct.");
        assert(s@ =~= output_name_spec(stem@, scale, format@));
    }
    s
}

/// The full output path for one task of one input file.
pub fn output_path(input: &str, out_dir: Option<&str>, scale: u32, format: &str) -> (r: String)
    ensures
        r@ == output_path_spec(input@, match out_dir {
            Some(d) => Some(d@),
            None => None,
        }, scale, format@),
{
    let stem = file_stem_of(input);
    let name = output_name(stem.as_str(), scale, format);
    match out_dir {
        Some(d) => join_path(d, name.as_str()),
        None => {
            let parent = parent_of(input);
            join_path(parent.as_str(), name.as_str())
        },
    }
}

} // verus!
