//! Immutable strings interned in a shared table, so that equal texts share
//! one buffer for as long as any handle on it lives.
mod shared;

pub mod handle;
pub mod table;
mod weak_index;

pub use handle::ImmutableString;
pub use table::StringTable;
