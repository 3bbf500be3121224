use vstd::prelude::*;
use vstd::string::StrSliceExecFns;

verus! {

/// The character `c` equals `t` once an upper-case ASCII letter in `c` is
/// folded to lower case.
pub open spec fn char_matches_folded(c: char, t: char) -> bool {
    c == t || (65 <= c as u32 <= 90 && c as u32 + 32 == t as u32)
}

/// The text `s` spells the lower-case token `t`, ignoring ASCII case.
pub open spec fn matches_folded(s: Seq<char>, t: Seq<char>) -> bool {
    &&& s.len() == t.len()
    &&& forall|i: int| 0 <= i < s.len() ==> char_matches_folded(#[trigger] s[i], t[i])
}

/// Compares `s` with the lower-case token `token`, ignoring ASCII case.
pub fn eq_ignore_case(s: &str, token: &str) -> (r: bool)
    ensures
        r == matches_folded(s@, token@),
{
    let n = s.unicode_len();
    if n != token.unicode_len() {
        return false;
    }
    let mut i: usize = 0;
    while i < n
        invariant
            n == s@.len(),
            n == token@.len(),
            i <= n,
            forall|j: int| 0 <= j < i ==> char_matches_folded(#[trigger] s@[j], token@[j]),
        decreases n - i,
    {
        let c = s.get_char(i) as u32;
        let t = token.get_char(i) as u32;
        if !(c == t || (65 <= c && c <= 90 && c + 32 == t)) {
            return false;
        }
        i += 1;
    }
    true
}

/// A control character in the single-byte range (U+0000..U+001F and U+007F),
/// such as the format marker that older stored records start with.
pub open spec fn is_marker(c: char) -> bool {
    c as u32 <= 0x1f || c as u32 == 0x7f
}

/// The stored text with one leading marker character removed, if it has one.
pub open spec fn without_marker(s: Seq<char>) -> Seq<char> {
    if s.len() > 0 && is_marker(s[0]) {
        s.drop_first()
    } else {
        s
    }
}

/// Removes one leading marker character from stored text, leaving the JSON
/// payload that follows it; text without a marker is returned as it is.
pub fn strip_marker<'a>(text: &'a str) -> (r: &'a str)
    ensures
        r@ == without_marker(text@),
{
    let n = text.unicode_len();
    if n > 0 {
        let c = text.get_char(0) as u32;
        if c <= 0x1f || c == 0x7f {
            return text.substring_char(1, n);
        }
    }
    text
}

/// One marker character in front of a payload is removed, and exactly that
/// character: what is left is the payload, the same text that a payload
/// stored without the marker yields.
pub proof fn lemma_marker_stripped_once(c: char, payload: Seq<char>)
    requires
        is_marker(c),
        payload.len() == 0 || !is_marker(payload[0]),
    ensures
        without_marker(seq![c] + payload) == payload,
        without_marker(seq![c] + payload) == without_marker(payload),
{
    assert((seq![c] + payload).drop_first() =~= payload);
}

/// A strict parse met a token that names no variant.
#[derive(Debug)]
pub struct UnknownVariant {
    /// The token as it was given.
    pub variant: String,
}

impl UnknownVariant {
    /// The error for the token `token`.
    pub fn new(token: &str) -> (r: UnknownVariant)
        ensures
            r.variant@ == token@,
    {
        UnknownVariant { variant: token.to_owned() }
    }
}

} // verus!
