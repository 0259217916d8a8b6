//! The boundary with the key-expression grammar, which this crate does not
//! define, and the few conversions of text that the standard library does.

use vstd::prelude::*;
use vstd::string::{StrSliceExecFns, StringExecFns};
use zenoh_protocol_core::key_expr::keyexpr;

verus! {

/// Whether `keyexpr::new` of `zenoh_protocol_core` accepts `text` as a key
/// expression in canon form.
pub uninterp spec fn is_keyexpr(text: Seq<char>) -> bool;

/// Whether `text` ends with `**`, the wildcard that stands for any number
/// of chunks.
pub open spec fn ends_with_wildcard(text: Seq<char>) -> bool {
    text.len() >= 2 && text[text.len() - 2] == '*' && text[text.len() - 1] == '*'
}

/// Whether `text` starts with `**`, the wildcard that stands for any
/// number of chunks.
pub open spec fn starts_with_wildcard(text: Seq<char>) -> bool {
    text.len() >= 2 && text[0] == '*' && text[1] == '*'
}

/// Runs `keyexpr::new` on `s` and keeps whether it accepted, with the
/// message of its error where it did not. Acceptance depends on the text
/// alone. Nothing is claimed of the message: it names a place in the
/// grammar's source.
#[verifier::external_body]
pub(crate) fn validate(s: &str) -> (r: Result<(), String>)
    ensures
        r is Ok <==> is_keyexpr(s@),
{
    match keyexpr::new(s) {
        Ok(_) => Ok(()),
        Err(e) => Err(e.to_string()),
    }
}

/// `==` of `str`: two texts are equal when they hold the same characters.
#[verifier::external_body]
pub(crate) fn same_text(a: &str, b: &str) -> (r: bool)
    ensures
        r == (a@ == b@),
{
    a == b
}

/// `String::into_boxed_str`: the same text, without spare capacity.
#[verifier::external_body]
pub(crate) fn into_boxed(s: String) -> (r: Box<str>)
    ensures
        r@ == s@,
{
    s.into_boxed_str()
}

/// `Hash::hash` of `str`: feeds the text, and nothing else, to `state`.
#[verifier::external_body]
pub(crate) fn hash_text<H: std::hash::Hasher>(s: &str, state: &mut H) {
    std::hash::Hash::hash(s, state)
}

/// A copy of `s` on the heap.
pub(crate) fn boxed_copy(s: &str) -> (r: Box<str>)
    ensures
        r@ == s@,
{
    into_boxed(String::from_str(s))
}

/// `s` without its first `n` characters.
pub(crate) fn skip_chars(s: &str, n: u32) -> (r: &str)
    requires
        n <= s@.len(),
    ensures
        r@ == s@.skip(n as int),
{
    let len = s.unicode_len();
    s.substring_char(n as usize, len)
}

/// Whether `s` ends with `**`.
pub(crate) fn ends_with_wild(s: &str) -> (r: bool)
    ensures
        r == ends_with_wildcard(s@),
{
    let len = s.unicode_len();
    len >= 2 && s.get_char(len - 2) == '*' && s.get_char(len - 1) == '*'
}

/// Whether `s` starts with `**`.
pub(crate) fn starts_with_wild(s: &str) -> (r: bool)
    ensures
        r == starts_with_wildcard(s@),
{
    let len = s.unicode_len();
    len >= 2 && s.get_char(0) == '*' && s.get_char(1) == '*'
}

} // verus!
