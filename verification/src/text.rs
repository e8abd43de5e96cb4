//! Small text utilities shared by the planning and session logic.

use vstd::prelude::*;

verus! {

/// A character with the Unicode `White_Space` property, the set that
/// `char::is_whitespace` tests for.
pub open spec fn is_white_space(c: char) -> bool {
    ||| ('\u{9}' <= c && c <= '\u{d}')
    ||| c == ' '
    ||| c == '\u{85}'
    ||| c == '\u{a0}'
    ||| c == '\u{1680}'
    ||| ('\u{2000}' <= c && c <= '\u{200a}')
    ||| c == '\u{2028}'
    ||| c == '\u{2029}'
    ||| c == '\u{202f}'
    ||| c == '\u{205f}'
    ||| c == '\u{3000}'
}

/// Every character of `s` from index `from` on is white space.
pub open spec fn all_white_space_from(s: Seq<char>, from: int) -> bool {
    forall|i: int| from <= i < s.len() ==> #[trigger] is_white_space(s[i])
}

/// `r` is `s` with its trailing white space removed: a prefix of `s` that
/// does not end in white space, followed in `s` by white space only.
pub open spec fn is_trim_end_of(r: Seq<char>, s: Seq<char>) -> bool {
    &&& r.len() <= s.len()
    &&& r == s.subrange(0, r.len() as int)
    &&& all_white_space_from(s, r.len() as int)
    &&& (r.len() > 0 ==> !is_white_space(r[r.len() - 1]))
}

/// Tests a character for the Unicode `White_Space` property.
pub fn is_white_space_char(c: char) -> (r: bool)
    ensures
        r == is_white_space(c),
{
    ('\u{9}' <= c && c <= '\u{d}') || c == ' ' || c == '\u{85}' || c == '\u{a0}' || c
        == '\u{1680}' || ('\u{2000}' <= c && c <= '\u{200a}') || c == '\u{2028}' || c
        == '\u{2029}' || c == '\u{202f}' || c == '\u{205f}' || c == '\u{3000}'
}

/// Removes the trailing white space of a line of output.
pub fn trim_end(s: &str) -> (r: String)
    ensures
        is_trim_end_of(r@, s@),
{
    let n = s.unicode_len();
    let mut end: usize = n;
    while end > 0 && is_white_space_char(s.get_char(end - 1))
        invariant
            n == s@.len(),
            end <= n,
            all_white_space_from(s@, end as int),
        decreases end,
    {
        end = end - 1;
    }
    let kept = s.substring_char(0, end);
    let r = kept.to_owned();
    assert(r@ == s@.subrange(0, end as int));
    r
}

/// Trimming twice leaves what trimming once left.
pub proof fn lemma_trim_end_idempotent(r: Seq<char>, s: Seq<char>)
    requires
        is_trim_end_of(r, s),
    ensures
        is_trim_end_of(r, r),
{
    assert(r.subrange(0, r.len() as int) =~= r);
}

/// A text has exactly one trimmed form.
pub proof fn lemma_trim_end_unique(r1: Seq<char>, r2: Seq<char>, s: Seq<char>)
    requires
        is_trim_end_of(r1, s),
        is_trim_end_of(r2, s),
    ensures
        r1 == r2,
{
    if r1.len() < r2.len() {
        assert(r2[r2.len() - 1] == s[r2.len() - 1]);
        assert(is_white_space(s[r2.len() - 1]));
    } else if r2.len() < r1.len() {
        assert(r1[r1.len() - 1] == s[r1.len() - 1]);
        assert(is_white_space(s[r1.len() - 1]));
    }
}

/// Whether two texts hold the same characters.
pub fn same_text(a: &str, b: &str) -> (r: bool)
    ensures
        r == (a@ == b@),
{
    a.to_owned() == b.to_owned()
}

/// The text of a boolean as `format!` writes it.
pub fn bool_text(b: bool) -> (r: String)
    ensures
        r@ == (if b { "true"@ } else { "false"@ }),
{
    if b {
        "true".to_owned()
    } else {
        "false".to_owned()
    }
}

/// Copies a list of texts.
pub fn copy_texts(lines: &Vec<String>) -> (r: Vec<String>)
    ensures
        r.deep_view() == lines.deep_view(),
{
    let mut r: Vec<String> = Vec::new();
    let n = lines.len();
    for i in 0..n
        invariant
            n == lines.len(),
            r.len() == i,
            forall|j: int| 0 <= j < i ==> #[trigger] r[j]@ == lines[j]@,
    {
        r.push(lines[i].clone());
    }
    assert(r.deep_view() =~= lines.deep_view());
    r
}

/// Among ASCII characters exactly tab, line feed, vertical tab, form feed,
/// carriage return and space are white space.
pub proof fn lemma_ascii_white_space(c: char)
    requires
        (c as u32) < 128,
    ensures
        is_white_space(c) <==> (c == '\t' || c == '\n' || c == '\u{b}' || c == '\u{c}' || c == '\r'
            || c == ' '),
{
}

/// A text that does not end in white space is its own trimmed form.
pub proof fn lemma_trim_end_keeps_clean_text(r: Seq<char>, s: Seq<char>)
    requires
        s.len() == 0 || !is_white_space(s[s.len() - 1]),
        is_trim_end_of(r, s),
    ensures
        r == s,
{
    if r.len() < s.len() {
        assert(is_white_space(s[s.len() - 1]));
    }
    assert(r =~= s);
}

/// Appending white space to a text does not change its trimmed form.
pub proof fn lemma_trim_end_ignores_appended_white_space(r: Seq<char>, s: Seq<char>, w: Seq<char>)
    requires
        is_trim_end_of(r, s),
        all_white_space_from(w, 0),
    ensures
        is_trim_end_of(r, s + w),
{
    let t = s + w;
    assert(t.subrange(0, r.len() as int) =~= s.subrange(0, r.len() as int));
    assert forall|i: int| r.len() <= i < t.len() implies #[trigger] is_white_space(t[i]) by {
        if i < s.len() {
            assert(t[i] == s[i]);
        } else {
            assert(t[i] == w[i - s.len()]);
        }
    }
}

} // verus!
