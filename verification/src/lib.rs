//! Exact-arithmetic model of a fixed set of atmospheric-thermodynamics
//! constants and the quantities derived from them.
//!
//! Every physical constant is held as an exact rational number, so the
//! derivation formulas (specific gas constants, heat capacities, latent
//! heats, moist-air mixture coefficients) are verified as exact identities
//! over the mathematical rationals.

pub mod rational;
pub mod constants;
pub mod thermodynamics;
