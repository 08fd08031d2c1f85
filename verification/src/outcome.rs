//! How a piece of outside work went.

use vstd::prelude::*;

verus! {

/// How a piece of outside work went: a stage of connecting, a step of
/// sending.
#[derive(Debug, Clone, Copy, PartialEq, Eq)]
pub enum StageOutcome {
    Succeeded,
    Failed,
}

} // verus!
