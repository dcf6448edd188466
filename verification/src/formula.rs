//! The quantities the engine derives and the arithmetic it asks for.

use crate::double::Double;
use vstd::prelude::*;

verus! {

/// A derived quantity of the pipe segment.
#[derive(Clone, Copy, Debug, PartialEq, Eq, Structural)]
pub enum Quantity {
    /// Mean flow velocity, m/s.
    Velocity,
    /// Velocity head, `rho * v^2`.
    VelocityHead,
    /// Reynolds number.
    ReynoldsNumber,
    /// Darcy friction factor.
    DarcyFrictionFactor,
    /// Frictional pressure drop, kg/cm^2 per 100 m of pipe.
    PressureDrop100,
}

impl Quantity {
    /// The derivation divides by the viscosity, so `mu` is among the factors
    /// that must not vanish.
    pub open spec fn spec_needs_viscosity(self) -> bool {
        self is ReynoldsNumber || self is DarcyFrictionFactor || self is PressureDrop100
    }

    #[verifier::when_used_as_spec(spec_needs_viscosity)]
    pub fn needs_viscosity(self) -> (r: bool)
        ensures
            r == self.spec_needs_viscosity(),
    {
        match self {
            Quantity::Velocity => false,
            Quantity::VelocityHead => false,
            Quantity::ReynoldsNumber => true,
            Quantity::DarcyFrictionFactor => true,
            Quantity::PressureDrop100 => true,
        }
    }
}

/// One piece of double-precision arithmetic, with the operands it is to be
/// carried out on. Every operation is IEEE 754 binary64, evaluated left to
/// right as written.
#[derive(Clone, Copy, Debug, PartialEq, Eq, Structural)]
pub enum Formula {
    /// `a * b`
    Product { a: Double, b: Double },
    /// `w / rho / (pi / 4 * id * id) / 3600`: mass flow per hour over density
    /// and cross-section, per second.
    Velocity { w: Double, rho: Double, id: Double },
    /// `rho * v * v`
    VelocityHead { rho: Double, v: Double },
    /// `rho * v * id / mu`
    Reynolds { rho: Double, v: Double, id: Double, mu: Double },
    /// `64 / nre`, the Hagen-Poiseuille relation.
    Laminar { nre: Double },
    /// The Churchill correlation:
    /// `c = (7 / nre)^0.9 + 0.27 * e / id`, `a = (2.457 * ln c)^16`,
    /// `b = (37530 / nre)^16`, `t = (8 / nre)^12 + 1 / (a + b)^1.5`,
    /// result `4 * (2 * t^(1/12))`.
    Churchill { nre: Double, e: Double, id: Double },
    /// `fdarcy * rho * v * v / (2 * 9.80665 * id) / 10000 * 100 * sf`
    PressureDrop { fdarcy: Double, rho: Double, v: Double, id: Double, sf: Double },
}

} // verus!
