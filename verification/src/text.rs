//! Character-level text model shared by the transcript and speech logic.
//!
//! Strings are reasoned about through their `Seq<char>` views. The few std
//! string operations the library relies on are given short, documented
//! contracts here.
use vstd::prelude::*;

verus! {

/// Unicode `White_Space` property, as `char::is_whitespace` documents it.
pub open spec fn is_whitespace(c: char) -> bool {
    let u = c as u32;
    ||| (0x09 <= u && u <= 0x0D)
    ||| u == 0x20
    ||| u == 0x85
    ||| u == 0xA0
    ||| u == 0x1680
    ||| (0x2000 <= u && u <= 0x200A)
    ||| u == 0x2028
    ||| u == 0x2029
    ||| u == 0x202F
    ||| u == 0x205F
    ||| u == 0x3000
}

/// The text with its leading whitespace removed.
pub open spec fn trim_start(s: Seq<char>) -> Seq<char>
    decreases s.len(),
{
    if s.len() > 0 && is_whitespace(s[0]) {
        trim_start(s.drop_first())
    } else {
        s
    }
}

/// The text with its trailing whitespace removed.
pub open spec fn trim_end(s: Seq<char>) -> Seq<char>
    decreases s.len(),
{
    if s.len() > 0 && is_whitespace(s.last()) {
        trim_end(s.drop_last())
    } else {
        s
    }
}

/// The text with leading and trailing whitespace removed.
pub open spec fn trim(s: Seq<char>) -> Seq<char> {
    trim_end(trim_start(s))
}

/// The text holds at least one character that is not whitespace.
pub open spec fn has_content(s: Seq<char>) -> bool {
    exists|i: int| 0 <= i < s.len() && !is_whitespace(#[trigger] s[i])
}

/// Trimming leaves nothing exactly when the text is all whitespace.
pub proof fn lemma_trim_start_empty_iff(s: Seq<char>)
    ensures
        (trim_start(s).len() == 0) <==> !has_content(s),
        trim_start(s).len() > 0 ==> !is_whitespace(trim_start(s)[0]),
    decreases s.len(),
{
    if s.len() > 0 && is_whitespace(s[0]) {
        let t = s.drop_first();
        lemma_trim_start_empty_iff(t);
        if has_content(s) {
            let i = choose|i: int| 0 <= i < s.len() && !is_whitespace(#[trigger] s[i]);
            assert(i > 0);
            assert(t[i - 1] == s[i]);
        }
        if has_content(t) {
            let j = choose|j: int| 0 <= j < t.len() && !is_whitespace(#[trigger] t[j]);
            assert(s[j + 1] == t[j]);
        }
    } else if s.len() > 0 {
        assert(!is_whitespace(s[0]));
    }
}

/// Trimming the end of a text that starts with content leaves that content.
pub proof fn lemma_trim_end_keeps_first(s: Seq<char>)
    requires
        s.len() > 0,
        !is_whitespace(s[0]),
    ensures
        trim_end(s).len() > 0,
    decreases s.len(),
{
    if is_whitespace(s.last()) {
        if s.len() == 1 {
            assert(s.last() == s[0]);
        } else {
            let t = s.drop_last();
            assert(t[0] == s[0]);
            lemma_trim_end_keeps_first(t);
        }
    }
}

/// The trimmed text is empty exactly when the text has no content.
pub proof fn lemma_trim_empty_iff(s: Seq<char>)
    ensures
        (trim(s).len() == 0) <==> !has_content(s),
{
    lemma_trim_start_empty_iff(s);
    if trim_start(s).len() > 0 {
        lemma_trim_end_keeps_first(trim_start(s));
    }
}

/// `str::trim`: the slice without leading and trailing whitespace, where
/// whitespace is the Unicode `White_Space` property.
#[verifier::external_body]
pub(crate) fn trim_str(s: &str) -> (r: &str)
    ensures
        r@ == trim(s@),
{
    s.trim()
}

/// `str::contains` with a `char` pattern: whether the character occurs.
#[verifier::external_body]
pub(crate) fn str_contains_char(s: &str, c: char) -> (r: bool)
    ensures
        r == s@.contains(c),
{
    s.contains(c)
}

/// `str == str`: equality of the two texts.
#[verifier::external_body]
pub(crate) fn str_equal(a: &str, b: &str) -> (r: bool)
    ensures
        r == (a@ == b@),
{
    a == b
}

/// Whether the text holds a non-whitespace character.
pub fn text_has_content(s: &str) -> (r: bool)
    ensures
        r == has_content(s@),
{
    let t = trim_str(s);
    proof {
        lemma_trim_empty_iff(s@);
    }
    !t.is_empty()
}

/// A fresh owned copy of the text.
pub fn owned(s: &str) -> (r: String)
    ensures
        r@ == s@,
{
    s.to_owned()
}

/// The concatenation of two texts.
pub fn text_concat(a: &str, b: &str) -> (r: String)
    ensures
        r@ == a@ + b@,
{
    let mut r = a.to_owned();
    r.append(b);
    r
}

} // verus!
