use vstd::prelude::*;

verus! {

/// The one way a derivation can fail: neither of two interchangeable
/// inputs was supplied, so nothing is left to derive the other from.
#[derive(Debug, Clone, Copy, PartialEq, Eq, Structural)]
pub enum SolveError {
    InvalidInput,
}

} // verus!
