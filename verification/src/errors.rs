//! The error taxonomy of the escrow core.
//!
//! Every precondition violation is fatal to the invoking atomic unit of
//! work: the caller receives the error and the component state is left
//! exactly as it was, which models the host environment rolling the unit of
//! work back.

use vstd::prelude::*;

verus! {

/// An error surfaced verbatim to the caller of an entry point.
#[derive(Clone, Copy, Debug, PartialEq, Eq, Structural)]
pub enum EscrowError {
    /// The asset container was already withdrawn once.
    AlreadyConsumedError,
    /// An entry point was invoked while the call-ordering step did not
    /// match its precondition.
    OutOfOrderCallError,
    /// `open` was invoked twice within one atomic unit of work.
    DoubleCallError,
    /// `open` was given a mode other than the two recognized values.
    InvalidModeError,
    /// A presented token does not come from the expected issuer.
    ProofVerificationError,
}

impl EscrowError {
    /// A short human-readable description of the error.
    pub fn describe(&self) -> (r: &'static str)
        ensures
            r@.len() > 0,
            self is AlreadyConsumedError ==> r@ == "container already withdrawn"@,
            self is OutOfOrderCallError ==> r@ == "call does not match the current step"@,
            self is DoubleCallError ==> r@ == "open called twice in one unit of work"@,
            self is InvalidModeError ==> r@ == "invalid mode"@,
            self is ProofVerificationError ==> r@ == "token does not match the expected issuer"@,
    {
        let d: &'static str = match self {
            EscrowError::AlreadyConsumedError => "container already withdrawn",
            EscrowError::OutOfOrderCallError => "call does not match the current step",
            EscrowError::DoubleCallError => "open called twice in one unit of work",
            EscrowError::InvalidModeError => "invalid mode",
            EscrowError::ProofVerificationError => "token does not match the expected issuer",
        };
        proof {
            reveal_strlit("container already withdrawn");
            reveal_strlit("call does not match the current step");
            reveal_strlit("open called twice in one unit of work");
            reveal_strlit("invalid mode");
            reveal_strlit("token does not match the expected issuer");
        }
        d
    }
}

} // verus!
