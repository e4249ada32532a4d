//! The intern table: a weak index of live buffers behind a reader-writer lock.
use crate::handle::ImmutableString;
use crate::shared::{push_char, share, share_again};
use crate::weak_index::WeakIndex;
use vstd::prelude::*;
use vstd::rwlock::{RwLock, RwLockPredicate};

verus! {

/// What the lock asks of the index it guards. Every state of a weak index is
/// acceptable: entries turn stale by themselves and are read as absent.
pub(crate) struct IndexInv;

impl RwLockPredicate<WeakIndex> for IndexInv {
    open spec fn inv(self, v: WeakIndex) -> bool {
        true
    }
}

/// A table that interns texts: while a handle on a text lives, every handle
/// that the table makes for that text shares its buffer.
///
/// Lookups of texts already present take the lock shared; only a text that
/// is not there takes it exclusively, and checks again before it inserts, so
/// that threads racing on one new text all end up on the buffer of the first.
/// Waiting for the lock spins. The code here does not panic while it holds it, so
/// the index is never left half-updated.
pub struct StringTable {
    index: RwLock<WeakIndex, IndexInv>,
}

impl StringTable {
    /// An empty table. No text buffer is allocated until the first text is interned.
    pub fn new() -> (r: StringTable) {
        StringTable { index: RwLock::new(WeakIndex::new(), Ghost(IndexInv)) }
    }

    /// A handle on `s`: the live buffer for that text if there is one, else a
    /// new buffer, recorded in the table.
    pub fn intern(&self, s: &str) -> (r: ImmutableString)
        ensures
            r@ == s@,
    {
        let reader = self.index.acquire_read();
        let found = reader.borrow().lookup(s);
        reader.release_read();
        match found {
            Some(buf) => ImmutableString::from_shared(buf),
            None => {
                let (mut index, writer) = self.index.acquire_write();
                // Another thread may have interned `s` since the shared lookup.
                let buf = match index.lookup(s) {
                    Some(buf) => buf,
                    None => {
                        let buf = share(s);
                        index.insert(share_again(&buf));
                        buf
                    },
                };
                writer.release_write(index);
                ImmutableString::from_shared(buf)
            },
        }
    }

    /// A handle on the text of an owned string.
    pub fn intern_string(&self, s: String) -> (r: ImmutableString)
        ensures
            r@ == s@,
    {
        self.intern(s.as_str())
    }

    /// A handle on the text made of `chars`, in order.
    pub fn intern_chars(&self, chars: &[char]) -> (r: ImmutableString)
        ensures
            r@ == chars@,
    {
        let mut text = String::new();
        let mut i: usize = 0;
        while i < chars.len()
            invariant
                i <= chars@.len(),
                text@ == chars@.subrange(0, i as int),
            decreases chars@.len() - i,
        {
            push_char(&mut text, chars[i]);
            i = i + 1;
            assert(text@ =~= chars@.subrange(0, i as int));
        }
        assert(text@ =~= chars@);
        self.intern(text.as_str())
    }
}

} // verus!
