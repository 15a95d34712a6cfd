//! Errors with which the stablecoin programs refuse an instruction.
use vstd::prelude::*;

verus! {

/// Why a stablecoin instruction was refused.
#[derive(Clone, Copy, Debug, PartialEq, Eq, Structural)]
pub enum StablecoinError {
    /// Unauthorized: missing required role.
    Unauthorized,
    /// Global pause is active.
    Paused,
    /// Account is blacklisted.
    Blacklisted,
    /// Invalid preset configuration.
    InvalidPreset,
    /// Overflow in calculation.
    Overflow,
}

} // verus!
