//! Error taxonomies: one for malformed textual input, one for the circuit
//! protocol itself.

use vstd::prelude::*;

verus! {

/// Errors raised while parsing the textual `"<operand> <operator> <operand>"`
/// input line.
#[derive(Clone, Copy, Debug, PartialEq, Eq, Structural)]
pub enum ParserError {
    /// The operator token is not one of `+`, `-`, `*`.
    InvalidOperator,
    /// An operand token is not a non-negative integer that fits in `u64`.
    InvalidOperand,
    /// More than three whitespace-separated tokens were supplied.
    TooManyInputs,
    /// Fewer than three whitespace-separated tokens were supplied.
    NotEnoughInputs,
}

/// Errors raised by the circuit protocol.
///
/// A `VerifierError` is the expected outcome of a correctly functioning
/// circuit given a tampered public input; a `ProverError` means the circuit
/// itself could not be synthesized by the backend.
#[derive(Clone, Copy, Debug, PartialEq, Eq, Structural)]
pub enum CircuitError {
    /// The backend failed while declaring or synthesizing the circuit.
    ProverError,
    /// Synthesis succeeded but the assignment does not satisfy the declared
    /// public input.
    VerifierError,
    /// Synthesis was requested before an operation was set.
    NoOperation,
}

} // verus!
