use vstd::prelude::*;

verus! {

/// The one recoverable error: a string that names no interval. It carries the
/// offending string so the caller can report it.
#[derive(Debug, Clone, PartialEq, Eq)]
pub enum Error {
    InvalidInterval { value: String },
}

} // verus!
