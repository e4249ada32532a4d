//! Calls into std on shared text buffers and strings.
use std::sync::Arc;
use vstd::prelude::*;

verus! {

/// Relies on `Arc::<str>::from(&str)`: a new buffer holding a copy of the text.
#[verifier::external_body]
pub(crate) fn share(s: &str) -> (r: Arc<str>)
    ensures
        (*r)@ == s@,
{
    Arc::from(s)
}

/// Relies on `Arc::clone`: a second strong reference to the same buffer.
#[verifier::external_body]
pub(crate) fn share_again(buf: &Arc<str>) -> (r: Arc<str>)
    ensures
        (*r)@ == (**buf)@,
{
    Arc::clone(buf)
}

/// Relies on `Arc::strong_count`: the number of strong references to the
/// buffer, `buf` among them.
#[verifier::external_body]
pub(crate) fn strong_count(buf: &Arc<str>) -> (r: usize)
    ensures
        r >= 1,
{
    Arc::strong_count(buf)
}

/// Relies on `<str as PartialEq>::eq`: texts are equal when their characters are.
#[verifier::external_body]
pub(crate) fn same_text(a: &str, b: &str) -> (r: bool)
    ensures
        r == (a@ == b@),
{
    a == b
}

/// Relies on `String::push`: appends one character.
#[verifier::external_body]
pub(crate) fn push_char(s: &mut String, c: char)
    ensures
        final(s)@ == old(s)@.push(c),
{
    s.push(c)
}

} // verus!
