//! The two ways in which wrapping an identifier fails.

use vstd::prelude::*;

verus! {

/// Why an identifier was not wrapped.
#[derive(Debug, PartialEq, Eq)]
pub enum Error {
    /// The identifier does not name a live, reference-counted object.
    InvalidHandle { id: i32 },
    /// The identifier is of a category that the wrapper type does not accept.
    /// `expected` is the name of the wrapper type.
    WrongType { expected: String, id: i32 },
}

} // verus!
