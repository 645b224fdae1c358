//! The error conditions the synthesizers surface to their callers.

use vstd::prelude::*;

verus! {

/// Every failure is fatal and reported synchronously; nothing is retried
/// beyond the bounded diagonalization loop in the numerical front end.
#[derive(Clone, Copy, Debug, PartialEq, Eq, Structural)]
pub enum SynthError {
    /// The randomized re-diagonalization exhausted its trials.
    DegenerateEigenproblem,
    /// Both candidate blocks of a product decomposition had a
    /// near-zero determinant.
    ProductDecompositionFailure,
    /// A forced or selected specialization fell short of the requested
    /// fidelity; carries achieved and requested values in fidelity units.
    FidelityBelowRequest { calculated: i64, requested: i64 },
    /// The pulse-efficient path was demanded but its gate or basis
    /// preconditions are unmet.
    UnsupportedPulseOptimization,
    /// The supplied gate family is not consistent with a single-parameter
    /// two-body rotation, or its scale differed across probe angles.
    GateEquivalenceCheckFailure,
    /// A specialization discriminant outside the known range.
    UnknownSpecialization { value: u8 },
}

} // verus!
