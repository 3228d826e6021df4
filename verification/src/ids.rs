//! Fresh identifiers for TTS contexts, engine requests and AI participants.
use vstd::prelude::*;

use crate::text::{str_equal, text_concat};

verus! {

/// A lowercase hexadecimal digit: `0`-`9` or `a`-`f`.
pub open spec fn is_lower_hex_digit(c: char) -> bool {
    let u = c as u32;
    (0x30 <= u && u <= 0x39) || (0x61 <= u && u <= 0x66)
}

/// Character `i` of a hyphenated UUID: a hyphen at 8, 13, 18 and 23, a
/// lowercase hex digit elsewhere.
pub open spec fn uuid_char_ok(i: int, c: char) -> bool {
    if i == 8 || i == 13 || i == 18 || i == 23 {
        c == '-'
    } else {
        is_lower_hex_digit(c)
    }
}

/// The hyphenated lowercase text of a random (version 4, RFC variant) UUID:
/// 36 characters in groups of 8-4-4-4-12 hex digits, the version digit `4`,
/// and a variant digit among `8`, `9`, `a`, `b`.
pub open spec fn is_uuid_v4_text(s: Seq<char>) -> bool {
    &&& s.len() == 36
    &&& forall|i: int| 0 <= i < 36 ==> uuid_char_ok(i, #[trigger] s[i])
    &&& s[14] == '4'
    &&& (s[19] == '8' || s[19] == '9' || s[19] == 'a' || s[19] == 'b')
}

/// `Uuid::new_v4().to_string()`: a random UUID whose version and variant
/// bits are fixed, written by `Display` in its lowercase hyphenated form.
/// Only that form is stated; the other 122 bits are drawn at random.
#[verifier::external_body]
pub(crate) fn random_uuid_text() -> (r: String)
    ensures
        is_uuid_v4_text(r@),
{
    uuid::Uuid::new_v4().to_string()
}

/// A fresh identifier for a TTS generation context or an engine request: the
/// text of a random UUID.
pub fn new_context_id() -> (id: String)
    ensures
        is_uuid_v4_text(id@),
{
    random_uuid_text()
}

/// Whether `id` is one of the two contexts.
fn is_one_of(id: &String, a: &Option<String>, b: &Option<String>) -> (r: bool)
    ensures
        r == (a.deep_view() == Some(id@) || b.deep_view() == Some(id@)),
{
    let in_a = match a {
        Some(x) => str_equal(x.as_str(), id.as_str()),
        None => false,
    };
    let in_b = match b {
        Some(x) => str_equal(x.as_str(), id.as_str()),
        None => false,
    };
    in_a || in_b
}

/// The UUID text `u` with its last digit replaced by `d`.
fn with_last_digit(u: &String, d: &str) -> (r: String)
    requires
        is_uuid_v4_text(u@),
        d@.len() == 1,
        is_lower_hex_digit(d@[0]),
    ensures
        is_uuid_v4_text(r@),
        r@ == u@.subrange(0, 35) + d@,
{
    let stem = u.as_str().substring_char(0, 35);
    let r = text_concat(stem, d);
    assert forall|i: int| 0 <= i < 36 implies uuid_char_ok(i, #[trigger] r@[i]) by {
        if i < 35 {
            assert(r@[i] == u@[i]);
        } else {
            assert(r@[i] == d@[0]);
        }
    }
    assert(r@[14] == u@[14] && r@[19] == u@[19]);
    r
}

/// A fresh identifier for a TTS context that is neither of two contexts
/// already in use: the text of a random UUID. Should the draw repeat one of
/// them, its last digit is replaced by one that repeats neither.
pub fn new_context_id_avoiding(a: &Option<String>, b: &Option<String>) -> (id: String)
    ensures
        is_uuid_v4_text(id@),
        a.deep_view() != Some(id@),
        b.deep_view() != Some(id@),
{
    let u = random_uuid_text();
    if !is_one_of(&u, a, b) {
        return u;
    }
    proof {
        reveal_strlit("0");
        reveal_strlit("1");
        reveal_strlit("2");
    }
    let c0 = with_last_digit(&u, "0");
    if !is_one_of(&c0, a, b) {
        return c0;
    }
    let c1 = with_last_digit(&u, "1");
    if !is_one_of(&c1, a, b) {
        return c1;
    }
    let c2 = with_last_digit(&u, "2");
    assert(c0@[35] != c1@[35] && c0@ != c1@);
    assert(c2@[35] != c0@[35] && c2@ != c0@);
    assert(c2@[35] != c1@[35] && c2@ != c1@);
    c2
}

/// The identifier of an AI participant: `ai-` followed by a random UUID.
pub fn new_ai_participant_id() -> (id: String)
    ensures
        exists|u: Seq<char>| is_uuid_v4_text(u) && id@ == "ai-"@ + u,
{
    let u = random_uuid_text();
    let id = text_concat("ai-", u.as_str());
    assert(is_uuid_v4_text(u@) && id@ == "ai-"@ + u@);
    id
}

} // verus!
