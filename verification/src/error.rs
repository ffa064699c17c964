//! What can go wrong between a phase and its row.

use vstd::prelude::*;

verus! {

/// The three ways in which an operation on a life fails. None of them is
/// fatal: the caller decides whether to try again.
#[derive(Clone, Copy, Debug, PartialEq, Eq, Structural)]
pub enum Error {
    /// The table holds no row under the id that was asked for.
    NotFound,
    /// The table would not take the row.
    Storage,
    /// A row's tag names no phase, or its timestamps do not fit the phase
    /// that the tag names.
    CorruptState,
}

} // verus!
