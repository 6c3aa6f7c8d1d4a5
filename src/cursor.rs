use vstd::prelude::*;
use crate::record::{DecodeError, OwnedRecord};

verus! {

/// The outcome of a cursor operation that may have to wait for I/O.
pub enum CursorResult<T> {
    /// The operation completed with this result.
    Done(T),
    /// The operation is waiting on I/O: call `wait_for_completion`, then
    /// retry the same operation.
    IO,
}

/// Why a cursor operation failed.
#[derive(Debug, Clone, Copy, PartialEq, Eq, Structural)]
pub enum CursorError {
    /// A column needed by the cursor could not be read.
    Decode(DecodeError),
    /// A sort key was neither an integer nor text.
    UnsupportedKey,
    /// The cursor does not offer this capability.
    Unsupported,
}

/// The uniform protocol of every row source and row sink.
pub trait Cursor {
    /// Whether no current row is materialized.
    fn is_empty(&self) -> bool;

    /// Positions on the first row.
    fn rewind(&mut self) -> Result<CursorResult<()>, CursorError>;

    /// Advances to the following row.
    fn next(&mut self) -> Result<CursorResult<()>, CursorError>;

    /// Waits until the I/O that an operation reported has completed.
    fn wait_for_completion(&mut self) -> Result<(), CursorError>;

    /// The current row's integer identity, if it has one.
    fn rowid(&self) -> Result<Option<u64>, CursorError>;

    /// A read-only view of the current row.
    fn record(&self) -> Result<&Option<OwnedRecord>, CursorError>;

    /// Accepts a row.
    fn insert(&mut self, record: &OwnedRecord) -> Result<(), CursorError>;
}

} // verus!
