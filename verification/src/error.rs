//! The ways in which a query can fail.

use vstd::prelude::*;

verus! {

/// Why a query gave no result. None of these is fatal: the caller may try
/// again, go on to the next process, or report the failure.
#[derive(Clone, Copy, Debug, PartialEq, Eq, Structural)]
pub enum ProcError {
    /// The kernel refused the query. The value is the `errno` that the
    /// failed call left behind.
    Os(i32),
    /// The kernel answered, but the bytes of the text are not UTF-8.
    InvalidUtf8,
    /// A list of more elements was asked for than a buffer of the largest
    /// size that the protocol allows would hold. No call is made.
    ListTooLong,
}

} // verus!
