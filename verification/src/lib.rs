//! Canonical (Weyl/KAK) decomposition of two-qubit unitaries and synthesis of
//! equivalent circuits from a fixed entangling gate.
//!
//! All angles are carried as signed fixed-point integers in units of
//! pi / 2^30, so that quarter-turn constants, modular reduction by two pi,
//! and every chamber comparison are exact. Fidelities are carried in units
//! of 10^-9. The numerical front end (eigendecomposition and complex matrix
//! algebra) lives outside this crate and hands in plain integer data.

pub mod angles;
pub mod basis;
pub mod chamber;
pub mod controlled;
pub mod errors;
pub mod pulse;
pub mod sequence;
pub mod specialize;
pub mod weyl;
