//! A small arithmetic constraint circuit: it proves knowledge of two private
//! operands and an operator such that a publicly disclosed result is the
//! correct application of the operator to the operands.
//!
//! The library models the circuit's arithmetization — the column layout, the
//! selector-gated gates, the copy constraints and the public-instance
//! constraint — and verifies that a synthesized witness trace satisfies the
//! constraint system exactly when the public input is the operator applied to
//! the two loaded operands. Field arithmetic is carried out by the proving
//! backend's prime field, reached through a handful of trusted wrappers.

pub mod calculator;
pub mod errors;
pub mod field;
pub mod synthesis;
