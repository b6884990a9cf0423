//! Error taxonomy for match setup.
//!
//! Setup errors are surfaced once, at setup time; a failed setup is not
//! recoverable for that match instance.  Rejected moves are reported
//! through a plain boolean and are always recoverable.

use vstd::prelude::*;

verus! {

#[derive(Clone, Copy, Debug, PartialEq, Eq, Structural)]
pub enum SetupError {
    /// A player name is empty, or collides with the reserved sentinel name.
    EmptyName,
    /// Both players were given the same name.
    DuplicateName,
    /// A back rank lacks a single consistent owner.
    OwnershipNotReady,
    /// A side does not hold exactly twelve pieces.
    PiecesNotReady,
}

} // verus!
