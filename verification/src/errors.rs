use vstd::prelude::*;

verus! {

/// The ways an epoch-processing pass can fail. Every error is fatal: the
/// first one aborts the pass and the caller must discard the state copy it
/// was operating on.
#[derive(Clone, Copy, Debug, PartialEq, Eq, Structural)]
pub enum Error {
    /// Overflow, underflow or division by zero in a checked computation.
    ArithmeticError,
    /// A per-validator sequence is shorter than the validator registry, or a
    /// cache does not know the given validator index.
    UnknownValidatorIndex(usize),
    /// A participation-flag index outside the fixed set of flags.
    InvalidFlagIndex(usize),
    /// A collaborator cache was not initialized for the pre-transition state.
    CacheError,
}

} // verus!
