use vstd::prelude::*;

verus! {

/// Why the record store could not carry out a statement.
#[derive(PartialEq, Eq, Structural, Clone, Copy, Debug)]
pub enum StoreError {
    /// The database could not be reached or the statement failed.
    Unavailable,
    /// The identity sequence has no value left to hand out.
    IdsExhausted,
}

/// Why the object store could not carry out a request.
#[derive(PartialEq, Eq, Structural, Clone, Copy, Debug)]
pub enum StorageError {
    /// The object could not be written.
    PutFailed,
    /// The object is missing or could not be read.
    GetFailed,
}

} // verus!
