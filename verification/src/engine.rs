//! The flow state of one pipe segment and the derivation of its hydraulic
//! quantities, one piece of arithmetic at a time.
//!
//! A derivation is begun with [`SingleFx::velocity`] or one of its siblings,
//! which either refuses or names the first [`Formula`] to evaluate. The caller
//! evaluates it and hands the result to [`SingleFx::resume`], which records
//! what has been derived and names the next formula, until the derivation is
//! done. Every guard is passed before anything is recorded, so a derivation
//! that fails leaves every derived quantity as it found it; and a quantity
//! is only ever recorded after those it depends on.

use crate::double::Double;
use crate::formula::{Formula, Quantity};
use vstd::prelude::*;

verus! {

/// Bits of `2300.0`, the Reynolds number up to which flow counts as laminar.
pub const LAMINAR_LIMIT_BITS: u64 = 0x40a1_f800_0000_0000;

/// The Reynolds number up to which, inclusive, flow is laminar.
pub open spec fn spec_laminar_limit() -> Double {
    Double { bits: LAMINAR_LIMIT_BITS }
}

#[verifier::when_used_as_spec(spec_laminar_limit)]
pub fn laminar_limit() -> (limit: Double)
    ensures
        limit == spec_laminar_limit(),
{
    Double { bits: LAMINAR_LIMIT_BITS }
}

/// Why a derivation was refused.
#[derive(Clone, Copy, Debug, PartialEq, Eq, Structural)]
pub enum FlowError {
    /// A divisor would be zero. Each flag names an offending input: the
    /// inputs that are themselves zero, or, where none is but their product
    /// vanishes all the same, every factor of that product.
    DivisionByZero { rho: bool, id: bool, mu: bool },
}

/// Which value a derivation is waiting for.
#[derive(Clone, Copy, Debug, PartialEq, Eq, Structural)]
pub enum Stage {
    /// `rho * id`.
    PairProduct,
    /// `(rho * id) * mu`; `pair_vanished` remembers that `rho * id` was zero.
    TripleProduct { pair_vanished: bool },
    /// The velocity.
    Velocity,
    /// The velocity head.
    VelocityHead,
    /// The Reynolds number.
    Reynolds,
    /// The friction factor.
    Friction,
    /// The pressure drop.
    PressureDrop,
}

/// A derivation under way: what it is heading for and what it waits for.
#[derive(Clone, Copy, Debug, PartialEq, Eq, Structural)]
pub struct Pending {
    pub target: Quantity,
    pub stage: Stage,
}

/// What a derivation has come to.
#[derive(Clone, Copy, Debug, PartialEq, Eq, Structural)]
pub enum Step {
    /// Evaluate this formula and resume with its value.
    Evaluate(Formula),
    /// The target quantity has this value, and the state holds it.
    Done(Double),
    /// The derivation was refused; nothing was recorded.
    Failed(FlowError),
    /// No derivation is under way, so there was nothing to resume.
    Idle,
}

/// The six inputs of a pipe segment, in SI units unless noted.
#[derive(Clone, Copy, Debug, PartialEq, Eq, Structural)]
pub struct Inputs {
    /// Mass flow rate, kg/hr.
    pub w: Double,
    /// Fluid density, kg/m^3.
    pub rho: Double,
    /// Dynamic viscosity, kg/(m s).
    pub mu: Double,
    /// Pipe inside diameter, m.
    pub id: Double,
    /// Absolute pipe roughness, m.
    pub e: Double,
    /// Safety factor applied to the pressure drop.
    pub sf: Double,
}

/// A flow state as contracts see it: the inputs, the quantities derived so
/// far, and the derivation under way, if there is one.
pub struct FlowState {
    pub inputs: Inputs,
    pub v: Option<Double>,
    pub nre: Option<Double>,
    pub fdarcy: Option<Double>,
    pub dp100: Option<Double>,
    pub vh: Option<Double>,
    pub awaiting: Option<Pending>,
}

impl FlowState {
    /// Nothing is held without what it was derived from: no Reynolds number
    /// without a velocity, no friction factor without a Reynolds number, no
    /// pressure drop without a friction factor, no velocity head without a
    /// velocity. And a derivation under way waits for a quantity only when
    /// all that the quantity is derived from is held, and only on the way to
    /// its target.
    pub open spec fn ordered(self) -> bool {
        &&& self.nre is Some ==> self.v is Some
        &&& self.fdarcy is Some ==> self.nre is Some
        &&& self.dp100 is Some ==> self.fdarcy is Some
        &&& self.vh is Some ==> self.v is Some
        &&& self.awaiting matches Some(pending) ==> match pending.stage {
            Stage::PairProduct => true,
            Stage::TripleProduct { .. } => pending.target.spec_needs_viscosity(),
            Stage::Velocity => true,
            Stage::VelocityHead => pending.target is VelocityHead && self.v is Some,
            Stage::Reynolds => pending.target.spec_needs_viscosity() && self.v is Some,
            Stage::Friction => {
                &&& pending.target is DarcyFrictionFactor || pending.target is PressureDrop100
                &&& self.nre is Some
            },
            Stage::PressureDrop => pending.target is PressureDrop100 && self.fdarcy is Some,
        }
    }
}

/// The flow state of one pipe segment: six inputs, fixed at construction,
/// and the quantities derived from them so far. A derived quantity is `None`
/// until a derivation has recorded it.
#[derive(Clone, Copy, Debug)]
pub struct SingleFx {
    inputs: Inputs,
    v: Option<Double>,
    nre: Option<Double>,
    fdarcy: Option<Double>,
    dp100: Option<Double>,
    vh: Option<Double>,
    awaiting: Option<Pending>,
}

/// The refusal that the inputs alone call for: some factor of the guarded
/// product is itself zero. The factors are `rho` and `id`, and `mu` too for
/// a target that divides by the viscosity.
pub open spec fn refusal(inputs: Inputs, target: Quantity) -> Option<FlowError> {
    let rho = inputs.rho.spec_is_zero();
    let id = inputs.id.spec_is_zero();
    let mu = target.spec_needs_viscosity() && inputs.mu.spec_is_zero();
    if rho || id || mu {
        Some(FlowError::DivisionByZero { rho, id, mu })
    } else {
        None
    }
}

/// The state in which `stage` is waited for on the way to `target`.
pub open spec fn waiting(state: FlowState, target: Quantity, stage: Stage) -> FlowState {
    FlowState { awaiting: Some(Pending { target, stage }), ..state }
}

/// The state with no derivation under way.
pub open spec fn at_rest(state: FlowState) -> FlowState {
    FlowState { awaiting: None, ..state }
}

/// A derivation of `target` begun, whatever was under way before: refused
/// where an input that would be divided by is zero, else waiting for the
/// product `rho * id`. Nothing derived is touched.
pub open spec fn begin(state: FlowState, target: Quantity) -> (FlowState, Step) {
    match refusal(state.inputs, target) {
        Some(error) => (at_rest(state), Step::Failed(error)),
        None => (
            waiting(state, target, Stage::PairProduct),
            Step::Evaluate(Formula::Product { a: state.inputs.rho, b: state.inputs.id }),
        ),
    }
}

/// The guards are passed: the velocity is asked for.
pub open spec fn ask_velocity(state: FlowState, target: Quantity) -> (FlowState, Step) {
    (
        waiting(state, target, Stage::Velocity),
        Step::Evaluate(
            Formula::Velocity { w: state.inputs.w, rho: state.inputs.rho, id: state.inputs.id },
        ),
    )
}

/// The friction formula for a Reynolds number: Hagen-Poiseuille up to the
/// laminar limit, inclusive, and Churchill above it. A NaN is not at most
/// anything and goes to Churchill.
pub open spec fn friction_formula(inputs: Inputs, nre: Double) -> Formula {
    if nre.spec_le(spec_laminar_limit()) {
        Formula::Laminar { nre }
    } else {
        Formula::Churchill { nre, e: inputs.e, id: inputs.id }
    }
}

/// One transition of the derivation under way: the state and the step that
/// follow when `value` comes back for the formula last asked for.
///
/// The product stages guard and record nothing: a vanished
/// `(rho * id) * mu` is refused first, then a vanished `rho * id`; past them
/// the velocity is asked for. Each later stage records `value` as the
/// quantity it waited for; then the derivation is done, where that quantity
/// is the target, or asks for the next one, from the inputs and what the
/// state holds. With no derivation under way nothing happens.
pub open spec fn advance(state: FlowState, value: Double) -> (FlowState, Step) {
    let inputs = state.inputs;
    match state.awaiting {
        None => (state, Step::Idle),
        Some(Pending { target, stage }) => match stage {
            Stage::PairProduct => {
                if target.spec_needs_viscosity() {
                    (
                        waiting(
                            state,
                            target,
                            Stage::TripleProduct { pair_vanished: value.spec_is_zero() },
                        ),
                        Step::Evaluate(Formula::Product { a: value, b: inputs.mu }),
                    )
                } else if value.spec_is_zero() {
                    (
                        at_rest(state),
                        Step::Failed(FlowError::DivisionByZero { rho: true, id: true, mu: false }),
                    )
                } else {
                    ask_velocity(state, target)
                }
            },
            Stage::TripleProduct { pair_vanished } => {
                if value.spec_is_zero() {
                    (
                        at_rest(state),
                        Step::Failed(FlowError::DivisionByZero { rho: true, id: true, mu: true }),
                    )
                } else if pair_vanished {
                    (
                        at_rest(state),
                        Step::Failed(FlowError::DivisionByZero { rho: true, id: true, mu: false }),
                    )
                } else {
                    ask_velocity(state, target)
                }
            },
            Stage::Velocity => {
                let held = FlowState { v: Some(value), ..state };
                match target {
                    Quantity::Velocity => (at_rest(held), Step::Done(value)),
                    Quantity::VelocityHead => (
                        waiting(held, target, Stage::VelocityHead),
                        Step::Evaluate(Formula::VelocityHead { rho: inputs.rho, v: value }),
                    ),
                    _ => (
                        waiting(held, target, Stage::Reynolds),
                        Step::Evaluate(
                            Formula::Reynolds {
                                rho: inputs.rho,
                                v: value,
                                id: inputs.id,
                                mu: inputs.mu,
                            },
                        ),
                    ),
                }
            },
            Stage::VelocityHead => (
                at_rest(FlowState { vh: Some(value), ..state }),
                Step::Done(value),
            ),
            Stage::Reynolds => {
                let held = FlowState { nre: Some(value), ..state };
                match target {
                    Quantity::DarcyFrictionFactor | Quantity::PressureDrop100 => (
                        waiting(held, target, Stage::Friction),
                        Step::Evaluate(friction_formula(inputs, value)),
                    ),
                    _ => (at_rest(held), Step::Done(value)),
                }
            },
            Stage::Friction => {
                let held = FlowState { fdarcy: Some(value), ..state };
                match target {
                    Quantity::PressureDrop100 => (
                        waiting(held, target, Stage::PressureDrop),
                        Step::Evaluate(
                            Formula::PressureDrop {
                                fdarcy: value,
                                rho: inputs.rho,
                                v: state.v.unwrap(),
                                id: inputs.id,
                                sf: inputs.sf,
                            },
                        ),
                    ),
                    _ => (at_rest(held), Step::Done(value)),
                }
            },
            Stage::PressureDrop => (
                at_rest(FlowState { dp100: Some(value), ..state }),
                Step::Done(value),
            ),
        },
    }
}

impl View for SingleFx {
    type V = FlowState;

    closed spec fn view(&self) -> FlowState {
        FlowState {
            inputs: self.inputs,
            v: self.v,
            nre: self.nre,
            fdarcy: self.fdarcy,
            dp100: self.dp100,
            vh: self.vh,
            awaiting: self.awaiting,
        }
    }
}

impl SingleFx {
    #[verifier::type_invariant]
    spec fn dependencies_held(&self) -> bool {
        self@.ordered()
    }

    /// A flow state that holds the six inputs as given, has derived nothing
    /// yet and has no derivation under way.
    pub fn new(w: Double, rho: Double, mu: Double, id: Double, e: Double, sf: Double) -> (fx:
        SingleFx)
        ensures
            fx@ == (FlowState {
                inputs: Inputs { w, rho, mu, id, e, sf },
                v: None,
                nre: None,
                fdarcy: None,
                dp100: None,
                vh: None,
                awaiting: None,
            }),
            fx@.ordered(),
    {
        SingleFx {
            inputs: Inputs { w, rho, mu, id, e, sf },
            v: None,
            nre: None,
            fdarcy: None,
            dp100: None,
            vh: None,
            awaiting: None,
        }
    }

    /// Begins a derivation of `target`, dropping the one under way, if any.
    pub fn start(&mut self, target: Quantity) -> (step: Step)
        ensures
            (final(self)@, step) == begin(old(self)@, target),
            final(self)@.ordered(),
    {
        proof {
            use_type_invariant(&*self);
        }
        let inputs = self.inputs;
        let rho = inputs.rho.is_zero();
        let id = inputs.id.is_zero();
        let mu = target.needs_viscosity() && inputs.mu.is_zero();
        if rho || id || mu {
            *self = SingleFx { awaiting: None, ..*self };
            Step::Failed(FlowError::DivisionByZero { rho, id, mu })
        } else {
            *self = SingleFx {
                awaiting: Some(Pending { target, stage: Stage::PairProduct }),
                ..*self
            };
            Step::Evaluate(Formula::Product { a: inputs.rho, b: inputs.id })
        }
    }

    /// Begins deriving the mean flow velocity. Refused where `rho` or `id`
    /// is zero.
    pub fn velocity(&mut self) -> (step: Step)
        ensures
            (final(self)@, step) == begin(old(self)@, Quantity::Velocity),
            final(self)@.ordered(),
    {
        self.start(Quantity::Velocity)
    }

    /// Begins deriving the velocity head, by way of the velocity. Refused
    /// where `rho` or `id` is zero.
    pub fn velocity_head(&mut self) -> (step: Step)
        ensures
            (final(self)@, step) == begin(old(self)@, Quantity::VelocityHead),
            final(self)@.ordered(),
    {
        self.start(Quantity::VelocityHead)
    }

    /// Begins deriving the Reynolds number, by way of the velocity. Refused
    /// where `rho`, `id` or `mu` is zero.
    pub fn reynold_num(&mut self) -> (step: Step)
        ensures
            (final(self)@, step) == begin(old(self)@, Quantity::ReynoldsNumber),
            final(self)@.ordered(),
    {
        self.start(Quantity::ReynoldsNumber)
    }

    /// Begins deriving the Darcy friction factor, by way of the velocity and
    /// the Reynolds number. Refused where `rho`, `id` or `mu` is zero.
    pub fn darcy_friction_factor(&mut self) -> (step: Step)
        ensures
            (final(self)@, step) == begin(old(self)@, Quantity::DarcyFrictionFactor),
            final(self)@.ordered(),
    {
        self.start(Quantity::DarcyFrictionFactor)
    }

    /// Begins deriving the pressure drop per 100 m, by way of the velocity,
    /// the Reynolds number and the friction factor. Refused where `rho`,
    /// `id` or `mu` is zero.
    pub fn pressure_drop_100(&mut self) -> (step: Step)
        ensures
            (final(self)@, step) == begin(old(self)@, Quantity::PressureDrop100),
            final(self)@.ordered(),
    {
        self.start(Quantity::PressureDrop100)
    }

    /// Takes the derivation under way up again with the `value` of the
    /// formula it last asked for.
    pub fn resume(&mut self, value: Double) -> (step: Step)
        ensures
            (final(self)@, step) == advance(old(self)@, value),
            final(self)@.ordered(),
    {
        proof {
            use_type_invariant(&*self);
        }
        let inputs = self.inputs;
        let (target, stage) = match self.awaiting {
            None => {
                return Step::Idle;
            },
            Some(pending) => (pending.target, pending.stage),
        };
        match stage {
            Stage::PairProduct => {
                if target.needs_viscosity() {
                    let stage = Stage::TripleProduct { pair_vanished: value.is_zero() };
                    *self = SingleFx { awaiting: Some(Pending { target, stage }), ..*self };
                    Step::Evaluate(Formula::Product { a: value, b: inputs.mu })
                } else if value.is_zero() {
                    *self = SingleFx { awaiting: None, ..*self };
                    Step::Failed(FlowError::DivisionByZero { rho: true, id: true, mu: false })
                } else {
                    let stage = Stage::Velocity;
                    *self = SingleFx { awaiting: Some(Pending { target, stage }), ..*self };
                    Step::Evaluate(
                        Formula::Velocity { w: inputs.w, rho: inputs.rho, id: inputs.id },
                    )
                }
            },
            Stage::TripleProduct { pair_vanished } => {
                if value.is_zero() {
                    *self = SingleFx { awaiting: None, ..*self };
                    Step::Failed(FlowError::DivisionByZero { rho: true, id: true, mu: true })
                } else if pair_vanished {
                    *self = SingleFx { awaiting: None, ..*self };
                    Step::Failed(FlowError::DivisionByZero { rho: true, id: true, mu: false })
                } else {
                    let stage = Stage::Velocity;
                    *self = SingleFx { awaiting: Some(Pending { target, stage }), ..*self };
                    Step::Evaluate(
                        Formula::Velocity { w: inputs.w, rho: inputs.rho, id: inputs.id },
                    )
                }
            },
            Stage::Velocity => match target {
                Quantity::Velocity => {
                    *self = SingleFx { v: Some(value), awaiting: None, ..*self };
                    Step::Done(value)
                },
                Quantity::VelocityHead => {
                    *self = SingleFx {
                        v: Some(value),
                        awaiting: Some(Pending { target, stage: Stage::VelocityHead }),
                        ..*self
                    };
                    Step::Evaluate(Formula::VelocityHead { rho: inputs.rho, v: value })
                },
                _ => {
                    *self = SingleFx {
                        v: Some(value),
                        awaiting: Some(Pending { target, stage: Stage::Reynolds }),
                        ..*self
                    };
                    Step::Evaluate(
                        Formula::Reynolds {
                            rho: inputs.rho,
                            v: value,
                            id: inputs.id,
                            mu: inputs.mu,
                        },
                    )
                },
            },
            Stage::VelocityHead => {
                *self = SingleFx { vh: Some(value), awaiting: None, ..*self };
                Step::Done(value)
            },
            Stage::Reynolds => match target {
                Quantity::DarcyFrictionFactor | Quantity::PressureDrop100 => {
                    *self = SingleFx {
                        nre: Some(value),
                        awaiting: Some(Pending { target, stage: Stage::Friction }),
                        ..*self
                    };
                    if value.le(laminar_limit()) {
                        Step::Evaluate(Formula::Laminar { nre: value })
                    } else {
                        Step::Evaluate(
                            Formula::Churchill { nre: value, e: inputs.e, id: inputs.id },
                        )
                    }
                },
                _ => {
                    *self = SingleFx { nre: Some(value), awaiting: None, ..*self };
                    Step::Done(value)
                },
            },
            Stage::Friction => match target {
                Quantity::PressureDrop100 => {
                    let v = self.v.unwrap();
                    *self = SingleFx {
                        fdarcy: Some(value),
                        awaiting: Some(Pending { target, stage: Stage::PressureDrop }),
                        ..*self
                    };
                    Step::Evaluate(
                        Formula::PressureDrop {
                            fdarcy: value,
                            rho: inputs.rho,
                            v,
                            id: inputs.id,
                            sf: inputs.sf,
                        },
                    )
                },
                _ => {
                    *self = SingleFx { fdarcy: Some(value), awaiting: None, ..*self };
                    Step::Done(value)
                },
            },
            Stage::PressureDrop => {
                *self = SingleFx { dp100: Some(value), awaiting: None, ..*self };
                Step::Done(value)
            },
        }
    }

    /// The inputs this state was made with.
    pub fn inputs(&self) -> (inputs: Inputs)
        ensures
            inputs == self@.inputs,
    {
        self.inputs
    }

    /// The mean flow velocity, m/s, once derived.
    pub fn v(&self) -> (v: Option<Double>)
        ensures
            v == self@.v,
            self@.ordered(),
    {
        proof {
            use_type_invariant(self);
        }
        self.v
    }

    /// The Reynolds number, once derived.
    pub fn nre(&self) -> (nre: Option<Double>)
        ensures
            nre == self@.nre,
            self@.ordered(),
    {
        proof {
            use_type_invariant(self);
        }
        self.nre
    }

    /// The Darcy friction factor, once derived.
    pub fn fdarcy(&self) -> (fdarcy: Option<Double>)
        ensures
            fdarcy == self@.fdarcy,
            self@.ordered(),
    {
        proof {
            use_type_invariant(self);
        }
        self.fdarcy
    }

    /// The frictional pressure drop, kg/cm^2 per 100 m, once derived.
    pub fn dp100(&self) -> (dp100: Option<Double>)
        ensures
            dp100 == self@.dp100,
            self@.ordered(),
    {
        proof {
            use_type_invariant(self);
        }
        self.dp100
    }

    /// The velocity head, once derived.
    pub fn vh(&self) -> (vh: Option<Double>)
        ensures
            vh == self@.vh,
            self@.ordered(),
    {
        proof {
            use_type_invariant(self);
        }
        self.vh
    }

    /// The derivation under way, if there is one.
    pub fn awaiting(&self) -> (pending: Option<Pending>)
        ensures
            pending == self@.awaiting,
            self@.ordered(),
    {
        proof {
            use_type_invariant(self);
        }
        self.awaiting
    }
}

} // verus!
