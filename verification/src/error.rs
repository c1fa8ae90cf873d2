//! The error type used throughout this crate.

use vstd::prelude::*;
use crate::flags::UnsafeMmapFlags;

verus! {

/// The error taxonomy: a request was refused by the library's own safety
/// gate, or an operating-system call failed.
#[derive(Clone, Copy, Debug, PartialEq, Eq, Structural)]
pub enum Error {
    /// The named set of unsafe flags must be acknowledged before this
    /// operation may be requested.
    UnsafeFlagNeeded(UnsafeMmapFlags),
    /// An underlying operating-system call failed with this native error
    /// code.
    Os(i32),
}

} // verus!
