//! Single-phase, incompressible pipe-flow hydraulics for one straight pipe
//! segment: mean velocity, Reynolds number, Darcy friction factor and
//! frictional pressure drop per 100 m.
//!
//! The engine decides *what* is computed, in which order, from which operands,
//! and when a derivation must be refused; the double-precision arithmetic of
//! each formula is carried out by the caller, who hands every result back as
//! a bit pattern.

pub mod double;
pub mod formula;
pub mod engine;
pub mod laws;
pub mod notation;

pub use crate::double::Double;
pub use crate::engine::{FlowError, Inputs, Pending, SingleFx, Stage, Step};
pub use crate::formula::{Formula, Quantity};
pub use crate::notation::pad_exponent;
