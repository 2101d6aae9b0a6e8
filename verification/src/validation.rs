//! Stateless checks on the text that callers supply.

use vstd::prelude::*;
use vstd::string::StrSliceExecFns;

verus! {

/// The control codes: U+0000 to U+001F and U+007F to U+009F.
pub open spec fn is_control_code(c: char) -> bool {
    c as u32 <= 0x1F || 0x7F <= c as u32 <= 0x9F
}

/// A character is permitted in free text unless it is a control code other
/// than line feed, carriage return and tab.
pub open spec fn is_permitted_char(c: char) -> bool {
    !is_control_code(c) || c == '\n' || c == '\r' || c == '\t'
}

/// Text is clean when each of its characters is permitted.
pub open spec fn is_clean_text(s: Seq<char>) -> bool {
    forall|i: int| 0 <= i < s.len() ==> is_permitted_char(#[trigger] s[i])
}

/// Whether `c` may appear in free text.
pub fn is_permitted(c: char) -> (b: bool)
    ensures
        b == is_permitted_char(c),
{
    let code: u32 = c as u32;
    let control = code <= 0x1F || (0x7F <= code && code <= 0x9F);
    !control || c == '\n' || c == '\r' || c == '\t'
}

/// Whether `s` holds no control code other than line feed, carriage return
/// and tab.
pub fn is_valid_utf8(s: &str) -> (b: bool)
    ensures
        b == is_clean_text(s@),
{
    let mut clean = true;
    for c in it: s.chars()
        invariant
            it.seq() == s@,
            clean == (forall|j: int| 0 <= j < it.index() ==> is_permitted_char(#[trigger] s@[j])),
    {
        assert(c == s@[it.index() as int]);
        clean = clean && is_permitted(c);
    }
    clean
}

/// A metadata reference names an approved scheme when it starts with
/// `ipfs://`, `https://` or `ar://`.
pub open spec fn has_approved_scheme(uri: Seq<char>) -> bool {
    "ipfs://"@.is_prefix_of(uri) || "https://"@.is_prefix_of(uri) || "ar://"@.is_prefix_of(uri)
}

/// Whether `s` starts with `prefix`, character by character.
pub fn has_prefix(s: &str, prefix: &str) -> (b: bool)
    ensures
        b == prefix@.is_prefix_of(s@),
{
    let n: usize = prefix.unicode_len();
    let m: usize = s.unicode_len();
    if m < n {
        return false;
    }
    let mut i: usize = 0;
    while i < n
        invariant
            n == prefix@.len(),
            m == s@.len(),
            n <= m,
            i <= n,
            forall|j: int| 0 <= j < i ==> s@[j] == prefix@[j],
        decreases n - i,
    {
        if s.get_char(i) != prefix.get_char(i) {
            assert(s@.subrange(0, n as int)[i as int] != prefix@[i as int]);
            return false;
        }
        i += 1;
    }
    assert(prefix@ =~= s@.subrange(0, n as int));
    true
}

/// Whether `uri` starts with one of the approved schemes.
pub fn is_valid_uri(uri: &str) -> (b: bool)
    ensures
        b == has_approved_scheme(uri@),
{
    has_prefix(uri, "ipfs://") || has_prefix(uri, "https://") || has_prefix(uri, "ar://")
}

} // verus!
