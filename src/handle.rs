//! The interned handle: a shared, immutable text buffer whose equality is its text.
use crate::shared::{same_text, strong_count};
use std::sync::Arc;
use vstd::prelude::*;
use vstd::std_specs::cmp::PartialEqSpec;

verus! {

/// A reference-counted handle on an immutable text buffer.
///
/// Handles are made by a [`crate::table::StringTable`], which hands out one
/// buffer per text for as long as a handle on it lives. Cloning a handle
/// shares the buffer. Equality, ordering and hashing go by the text alone.
#[derive(Clone, Debug, Eq, PartialOrd, Ord, Hash)]
pub struct ImmutableString(Arc<str>);

impl View for ImmutableString {
    type V = Seq<char>;

    /// The text of the handle.
    closed spec fn view(&self) -> Seq<char> {
        (*self.0)@
    }
}

impl ImmutableString {
    /// Wraps a buffer that the string table handed out.
    pub(crate) fn from_shared(buf: Arc<str>) -> (r: ImmutableString)
        ensures
            r@ == (*buf)@,
    {
        ImmutableString(buf)
    }

    /// The number of live handles (and table lookups in flight) sharing this
    /// handle's buffer. It is a diagnostic: other threads may change it at once.
    pub fn use_count(&self) -> (r: usize)
        ensures
            r >= 1,
    {
        strong_count(&self.0)
    }

    /// The text of the handle.
    pub fn as_str(&self) -> (r: &str)
        ensures
            r@ == self@,
    {
        &self.0
    }

    /// A fresh `String` holding exactly the handle's text.
    pub fn to_string(&self) -> (r: String)
        ensures
            r@ == self@,
    {
        self.as_str().to_owned()
    }
}

impl PartialEq for ImmutableString {
    fn eq(&self, other: &ImmutableString) -> (r: bool) {
        same_text(&self.0, &other.0)
    }
}

impl vstd::std_specs::cmp::PartialEqSpecImpl for ImmutableString {
    open spec fn obeys_eq_spec() -> bool {
        true
    }

    open spec fn eq_spec(&self, other: &ImmutableString) -> bool {
        self@ == other@
    }
}

impl std::ops::Deref for ImmutableString {
    type Target = str;

    fn deref(&self) -> (r: &str)
        ensures
            r@ == self@,
    {
        &self.0
    }
}

impl AsRef<str> for ImmutableString {
    fn as_ref(&self) -> (r: &str)
        ensures
            r@ == self@,
    {
        &self.0
    }
}

impl std::borrow::Borrow<str> for ImmutableString {
    fn borrow(&self) -> (r: &str)
        ensures
            <str as View>::view(r) == self@,
    {
        &self.0
    }
}

} // verus!

verus! {

/// Equality of handles is equality of their texts: two handles on the same
/// text compare equal, and two on different texts do not, whichever way each
/// was made and whether or not they share a buffer. It is also symmetric.
pub proof fn lemma_equality_is_textual(a: ImmutableString, b: ImmutableString)
    ensures
        a.eq_spec(&b) <==> a@ == b@,
        a.eq_spec(&b) == b.eq_spec(&a),
{
}

} // verus!
