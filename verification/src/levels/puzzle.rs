//! The lifecycle of one puzzle attempt.

use vstd::prelude::*;

verus! {

#[derive(Debug, Clone, Copy, PartialEq, Eq, Structural)]
pub enum PuzzleState {
    NotStarted,
    InProgress,
    Completed,
    Failed,
}

} // verus!
