//! What holds of every derivation, whatever the arithmetic makes of each
//! formula.
//!
//! The arithmetic is any function from formulas to values. A derivation run
//! to its end against it has a closed form, [`outcome`], and from that the
//! laws of the engine follow.

use crate::double::{lemma_units_increase, units, Double, HIDDEN_ONE};
use crate::engine::{
    advance, at_rest, begin, friction_formula, refusal, spec_laminar_limit, FlowError, FlowState,
    Inputs, Stage, Step, LAMINAR_LIMIT_BITS,
};
use crate::formula::{Formula, Quantity};
use vstd::arithmetic::power2::{lemma2_to64, lemma2_to64_rest, lemma_pow2_adds, pow2};
use vstd::prelude::*;

verus! {

/// How many formulas a derivation that stands at `step` in `state` may
/// still have evaluated, at most.
pub open spec fn evaluations_left(state: FlowState, step: Step) -> nat {
    if step is Evaluate {
        match state.awaiting {
            None => 1,
            Some(pending) => match pending.stage {
                Stage::PairProduct => 6,
                Stage::TripleProduct { .. } => 5,
                Stage::Velocity => 4,
                Stage::VelocityHead => 3,
                Stage::Reynolds => 3,
                Stage::Friction => 2,
                Stage::PressureDrop => 1,
            },
        }
    } else {
        0
    }
}

/// A derivation carried from `step` to its end: every formula asked for is
/// given the value `arithmetic` has for it, and the state is resumed with
/// that value, until a step asks for nothing more.
pub open spec fn run(state: FlowState, step: Step, arithmetic: spec_fn(Formula) -> Double) -> (
    FlowState,
    Step,
)
    decreases evaluations_left(state, step),
{
    match step {
        Step::Evaluate(formula) => {
            let next = advance(state, arithmetic(formula));
            run(next.0, next.1, arithmetic)
        },
        _ => (state, step),
    }
}

/// A whole derivation of `target`: begun in `state` and carried to its end.
pub open spec fn derivation(
    state: FlowState,
    target: Quantity,
    arithmetic: spec_fn(Formula) -> Double,
) -> (FlowState, Step) {
    run(begin(state, target).0, begin(state, target).1, arithmetic)
}

/// `rho * id` as the arithmetic has it.
pub open spec fn pair_product(inputs: Inputs, arithmetic: spec_fn(Formula) -> Double) -> Double {
    arithmetic(Formula::Product { a: inputs.rho, b: inputs.id })
}

/// `(rho * id) * mu` as the arithmetic has it.
pub open spec fn triple_product(inputs: Inputs, arithmetic: spec_fn(Formula) -> Double) -> Double {
    arithmetic(Formula::Product { a: pair_product(inputs, arithmetic), b: inputs.mu })
}

/// Why a derivation of `target` fails, if it does: an input that would be
/// divided by is zero; or none is, and the guarded product vanishes all the
/// same. For a target that divides by the viscosity the product
/// `(rho * id) * mu` is held against zero before `rho * id` is.
pub open spec fn failure(
    inputs: Inputs,
    target: Quantity,
    arithmetic: spec_fn(Formula) -> Double,
) -> Option<FlowError> {
    if refusal(inputs, target) is Some {
        refusal(inputs, target)
    } else if target.spec_needs_viscosity() && triple_product(inputs, arithmetic).spec_is_zero() {
        Some(FlowError::DivisionByZero { rho: true, id: true, mu: true })
    } else if pair_product(inputs, arithmetic).spec_is_zero() {
        Some(FlowError::DivisionByZero { rho: true, id: true, mu: false })
    } else {
        None
    }
}

/// The velocity: a matter of `w`, `rho` and `id` alone.
pub open spec fn velocity_value(inputs: Inputs, arithmetic: spec_fn(Formula) -> Double) -> Double {
    arithmetic(Formula::Velocity { w: inputs.w, rho: inputs.rho, id: inputs.id })
}

/// The velocity head, from the velocity.
pub open spec fn velocity_head_value(
    inputs: Inputs,
    arithmetic: spec_fn(Formula) -> Double,
) -> Double {
    arithmetic(Formula::VelocityHead { rho: inputs.rho, v: velocity_value(inputs, arithmetic) })
}

/// The Reynolds number, from the velocity.
pub open spec fn reynolds_value(inputs: Inputs, arithmetic: spec_fn(Formula) -> Double) -> Double {
    arithmetic(
        Formula::Reynolds {
            rho: inputs.rho,
            v: velocity_value(inputs, arithmetic),
            id: inputs.id,
            mu: inputs.mu,
        },
    )
}

/// The friction factor, from the Reynolds number, by the formula of its
/// flow regime.
pub open spec fn friction_value(inputs: Inputs, arithmetic: spec_fn(Formula) -> Double) -> Double {
    arithmetic(friction_formula(inputs, reynolds_value(inputs, arithmetic)))
}

/// The pressure drop, from the friction factor and the velocity.
pub open spec fn pressure_drop_value(
    inputs: Inputs,
    arithmetic: spec_fn(Formula) -> Double,
) -> Double {
    arithmetic(
        Formula::PressureDrop {
            fdarcy: friction_value(inputs, arithmetic),
            rho: inputs.rho,
            v: velocity_value(inputs, arithmetic),
            id: inputs.id,
            sf: inputs.sf,
        },
    )
}

/// The value of `target`.
pub open spec fn value_of(
    inputs: Inputs,
    target: Quantity,
    arithmetic: spec_fn(Formula) -> Double,
) -> Double {
    match target {
        Quantity::Velocity => velocity_value(inputs, arithmetic),
        Quantity::VelocityHead => velocity_head_value(inputs, arithmetic),
        Quantity::ReynoldsNumber => reynolds_value(inputs, arithmetic),
        Quantity::DarcyFrictionFactor => friction_value(inputs, arithmetic),
        Quantity::PressureDrop100 => pressure_drop_value(inputs, arithmetic),
    }
}

/// `target` is derived on the way to `goal`, or is `goal` itself. The chain
/// is velocity, Reynolds number, friction factor, pressure drop; the velocity
/// head hangs off the velocity.
pub open spec fn derived_for(target: Quantity, goal: Quantity) -> bool {
    match target {
        Quantity::Velocity => true,
        Quantity::VelocityHead => goal is VelocityHead,
        Quantity::ReynoldsNumber => goal.spec_needs_viscosity(),
        Quantity::DarcyFrictionFactor => goal is DarcyFrictionFactor || goal is PressureDrop100,
        Quantity::PressureDrop100 => goal is PressureDrop100,
    }
}

/// What `state` holds for `target`.
pub open spec fn held(state: FlowState, target: Quantity) -> Option<Double> {
    match target {
        Quantity::Velocity => state.v,
        Quantity::VelocityHead => state.vh,
        Quantity::ReynoldsNumber => state.nre,
        Quantity::DarcyFrictionFactor => state.fdarcy,
        Quantity::PressureDrop100 => state.dp100,
    }
}

/// `state` with every quantity on the way to `goal` holding its value, and
/// every other as it was.
pub open spec fn derived(
    state: FlowState,
    goal: Quantity,
    arithmetic: spec_fn(Formula) -> Double,
) -> FlowState {
    let inputs = state.inputs;
    FlowState {
        v: Some(velocity_value(inputs, arithmetic)),
        vh: if derived_for(Quantity::VelocityHead, goal) {
            Some(velocity_head_value(inputs, arithmetic))
        } else {
            state.vh
        },
        nre: if derived_for(Quantity::ReynoldsNumber, goal) {
            Some(reynolds_value(inputs, arithmetic))
        } else {
            state.nre
        },
        fdarcy: if derived_for(Quantity::DarcyFrictionFactor, goal) {
            Some(friction_value(inputs, arithmetic))
        } else {
            state.fdarcy
        },
        dp100: if derived_for(Quantity::PressureDrop100, goal) {
            Some(pressure_drop_value(inputs, arithmetic))
        } else {
            state.dp100
        },
        ..state
    }
}

/// A whole derivation of `target` in closed form: it fails and leaves alone
/// what the state holds, or it yields the value of `target` and records it
/// together with everything derived on the way. Either way no derivation is
/// under way afterwards.
pub open spec fn outcome(
    state: FlowState,
    target: Quantity,
    arithmetic: spec_fn(Formula) -> Double,
) -> (FlowState, Step) {
    match failure(state.inputs, target, arithmetic) {
        Some(error) => (at_rest(state), Step::Failed(error)),
        None => (
            at_rest(derived(state, target, arithmetic)),
            Step::Done(value_of(state.inputs, target, arithmetic)),
        ),
    }
}

/// The derivation of `target`, begun and resumed step by step until it asks
/// for nothing more, comes to exactly its closed form.
pub proof fn law_derivation(
    state: FlowState,
    target: Quantity,
    arithmetic: spec_fn(Formula) -> Double,
)
    ensures
        derivation(state, target, arithmetic) == outcome(state, target, arithmetic),
{
    reveal_with_fuel(run, 8);
}

/// The mean velocity is a function of `w`, `rho` and `id` alone: two flow
/// states that agree on these three derive the same velocity, or fail alike,
/// whatever else they hold; and where the derivation does not fail, the
/// velocity is the value of the velocity formula on the three.
pub proof fn law_velocity_depends_on_w_rho_id(
    a: FlowState,
    b: FlowState,
    arithmetic: spec_fn(Formula) -> Double,
)
    requires
        a.inputs.w == b.inputs.w,
        a.inputs.rho == b.inputs.rho,
        a.inputs.id == b.inputs.id,
    ensures
        derivation(a, Quantity::Velocity, arithmetic).1 == derivation(
            b,
            Quantity::Velocity,
            arithmetic,
        ).1,
        derivation(a, Quantity::Velocity, arithmetic).1 matches Step::Done(v) ==> v == arithmetic(
            Formula::Velocity { w: a.inputs.w, rho: a.inputs.rho, id: a.inputs.id },
        ),
{
    law_derivation(a, Quantity::Velocity, arithmetic);
    law_derivation(b, Quantity::Velocity, arithmetic);
}

/// Deriving a quantity a second time, with nothing changed in between,
/// yields the same result and leaves the state as the first derivation left
/// it.
pub proof fn law_rederivation(
    state: FlowState,
    target: Quantity,
    arithmetic: spec_fn(Formula) -> Double,
)
    ensures
        ({
            let first = derivation(state, target, arithmetic);
            derivation(first.0, target, arithmetic) == first
        }),
{
    law_derivation(state, target, arithmetic);
    let first = outcome(state, target, arithmetic);
    law_derivation(first.0, target, arithmetic);
}

/// The Reynolds number is `rho * v * id / mu` for the velocity `v` that a
/// derivation of the velocity yields from the same inputs, and the state
/// holds both afterwards.
pub proof fn law_reynolds_number(state: FlowState, arithmetic: spec_fn(Formula) -> Double)
    ensures
        ({
            let reynolds = derivation(state, Quantity::ReynoldsNumber, arithmetic);
            let velocity = derivation(state, Quantity::Velocity, arithmetic);
            reynolds.1 matches Step::Done(nre) ==> {
                &&& velocity.1 matches Step::Done(v)
                &&& nre == arithmetic(
                    Formula::Reynolds {
                        rho: state.inputs.rho,
                        v,
                        id: state.inputs.id,
                        mu: state.inputs.mu,
                    },
                )
                &&& reynolds.0.nre == Some(nre)
                &&& reynolds.0.v == Some(v)
            }
        }),
{
    law_derivation(state, Quantity::ReynoldsNumber, arithmetic);
    law_derivation(state, Quantity::Velocity, arithmetic);
}

/// The friction factor is the value of the formula of its flow regime, on
/// the Reynolds number that a derivation of the Reynolds number yields from
/// the same inputs: `64 / nre` up to the laminar limit, the Churchill
/// correlation with `e` and `id` above it.
pub proof fn law_friction_factor(state: FlowState, arithmetic: spec_fn(Formula) -> Double)
    ensures
        ({
            let friction = derivation(state, Quantity::DarcyFrictionFactor, arithmetic);
            let reynolds = derivation(state, Quantity::ReynoldsNumber, arithmetic);
            friction.1 matches Step::Done(fdarcy) ==> {
                &&& reynolds.1 matches Step::Done(nre)
                &&& fdarcy == arithmetic(
                    if nre.spec_le(spec_laminar_limit()) {
                        Formula::Laminar { nre }
                    } else {
                        Formula::Churchill { nre, e: state.inputs.e, id: state.inputs.id }
                    },
                )
                &&& friction.0.fdarcy == Some(fdarcy)
                &&& friction.0.nre == Some(nre)
                &&& friction.0.v == reynolds.0.v
            }
        }),
{
    law_derivation(state, Quantity::DarcyFrictionFactor, arithmetic);
    law_derivation(state, Quantity::ReynoldsNumber, arithmetic);
}

/// The pressure drop is the value of the pressure-drop formula on the
/// friction factor and the velocity that their own derivations yield from
/// the same inputs, with the safety factor as given.
pub proof fn law_pressure_drop(state: FlowState, arithmetic: spec_fn(Formula) -> Double)
    ensures
        ({
            let drop = derivation(state, Quantity::PressureDrop100, arithmetic);
            let friction = derivation(state, Quantity::DarcyFrictionFactor, arithmetic);
            let velocity = derivation(state, Quantity::Velocity, arithmetic);
            drop.1 matches Step::Done(dp100) ==> {
                &&& friction.1 matches Step::Done(fdarcy)
                &&& velocity.1 matches Step::Done(v)
                &&& dp100 == arithmetic(
                    Formula::PressureDrop {
                        fdarcy,
                        rho: state.inputs.rho,
                        v,
                        id: state.inputs.id,
                        sf: state.inputs.sf,
                    },
                )
                &&& drop.0.dp100 == Some(dp100)
                &&& drop.0.fdarcy == Some(fdarcy)
                &&& drop.0.nre == friction.0.nre
                &&& drop.0.v == Some(v)
            }
        }),
{
    law_derivation(state, Quantity::PressureDrop100, arithmetic);
    law_derivation(state, Quantity::DarcyFrictionFactor, arithmetic);
    law_derivation(state, Quantity::Velocity, arithmetic);
}

/// The laminar limit is 2300, and the regimes part exactly there: a Reynolds
/// number takes the Hagen-Poiseuille formula if and only if it is a number
/// and at most 2300. At 2300 itself flow is laminar; the next double above
/// it, and with it every double above 2300, takes the Churchill formula.
pub proof fn law_laminar_boundary(inputs: Inputs, nre: Double)
    ensures
        spec_laminar_limit().scaled() == 2300 * pow2(1074),
        friction_formula(inputs, nre) == if !nre.spec_is_nan() && nre.scaled() <= 2300 * pow2(
            1074,
        ) {
            Formula::Laminar { nre }
        } else {
            Formula::Churchill { nre, e: inputs.e, id: inputs.id }
        },
        friction_formula(inputs, spec_laminar_limit()) is Laminar,
        friction_formula(inputs, Double { bits: (LAMINAR_LIMIT_BITS + 1) as u64 }) is Churchill,
        !nre.spec_is_nan() && nre.scaled() > 2300 * pow2(1074) ==> nre.scaled() >= (Double {
            bits: (LAMINAR_LIMIT_BITS + 1) as u64,
        }).scaled(),
{
    let limit = spec_laminar_limit();
    assert(limit.spec_magnitude() == LAMINAR_LIMIT_BITS);
    assert(LAMINAR_LIMIT_BITS / HIDDEN_ONE == 1034);
    assert(LAMINAR_LIMIT_BITS % HIDDEN_ONE == 0x1_f800_0000_0000);
    assert(units(LAMINAR_LIMIT_BITS) == 2300 * pow2(1074)) by {
        lemma2_to64();
        lemma2_to64_rest();
        lemma_pow2_adds(41, 1033);
        assert(HIDDEN_ONE + 0x1_f800_0000_0000 == 2300 * pow2(41));
        assert((2300 * pow2(41)) * pow2(1033) == 2300 * (pow2(41) * pow2(1033)))
            by (nonlinear_arith);
    }
    let above = Double { bits: (LAMINAR_LIMIT_BITS + 1) as u64 };
    assert(above.spec_magnitude() == LAMINAR_LIMIT_BITS + 1);
    lemma_units_increase(LAMINAR_LIMIT_BITS, (LAMINAR_LIMIT_BITS + 1) as u64);
    if !nre.spec_is_nan() && nre.scaled() > 2300 * pow2(1074) {
        let m = nre.spec_magnitude();
        if m < LAMINAR_LIMIT_BITS {
            lemma_units_increase(m, LAMINAR_LIMIT_BITS);
        }
        if m > LAMINAR_LIMIT_BITS + 1 {
            lemma_units_increase((LAMINAR_LIMIT_BITS + 1) as u64, m);
        }
    }
}

/// A derivation is refused as soon as an input it would divide by is zero:
/// `rho` or `id` for every target, `mu` too for a target that divides by the
/// viscosity. The failure names exactly the inputs that are zero, no
/// formula is asked for, and every derived quantity is left untouched.
pub proof fn law_zero_input_refused(
    state: FlowState,
    target: Quantity,
    arithmetic: spec_fn(Formula) -> Double,
)
    requires
        state.inputs.rho.spec_is_zero() || state.inputs.id.spec_is_zero() || (
        target.spec_needs_viscosity() && state.inputs.mu.spec_is_zero()),
    ensures
        begin(state, target).1 is Failed,
        derivation(state, target, arithmetic) == (
            at_rest(state),
            Step::Failed(
                FlowError::DivisionByZero {
                    rho: state.inputs.rho.spec_is_zero(),
                    id: state.inputs.id.spec_is_zero(),
                    mu: target.spec_needs_viscosity() && state.inputs.mu.spec_is_zero(),
                },
            ),
        ),
{
    law_derivation(state, target, arithmetic);
}

/// A derivation ends done or failed. It fails exactly where its guarded
/// product, or a factor of it, is zero; and a derivation that fails, for
/// whatever reason, leaves every derived quantity untouched.
pub proof fn law_failure_leaves_state(
    state: FlowState,
    target: Quantity,
    arithmetic: spec_fn(Formula) -> Double,
)
    ensures
        ({
            let end = derivation(state, target, arithmetic);
            let inputs = state.inputs;
            let vanished = if target.spec_needs_viscosity() {
                inputs.mu.spec_is_zero() || triple_product(inputs, arithmetic).spec_is_zero()
                    || pair_product(inputs, arithmetic).spec_is_zero()
            } else {
                pair_product(inputs, arithmetic).spec_is_zero()
            };
            &&& end.1 is Done || end.1 is Failed
            &&& end.1 is Failed <==> inputs.rho.spec_is_zero() || inputs.id.spec_is_zero()
                || vanished
            &&& end.1 is Failed ==> end.0 == at_rest(state)
        }),
{
    law_derivation(state, target, arithmetic);
}

/// After a derivation that did not fail, the state holds the target and
/// every quantity the target depends on, each derived afresh from the
/// inputs in the order velocity, Reynolds number, friction factor, pressure
/// drop; what the target does not depend on is as it was.
pub proof fn law_dependency_chain(
    state: FlowState,
    goal: Quantity,
    quantity: Quantity,
    arithmetic: spec_fn(Formula) -> Double,
)
    ensures
        ({
            let end = derivation(state, goal, arithmetic);
            end.1 is Done ==> {
                &&& end.1 == Step::Done(value_of(state.inputs, goal, arithmetic))
                &&& held(end.0, quantity) == if derived_for(quantity, goal) {
                    Some(value_of(state.inputs, quantity, arithmetic))
                } else {
                    held(state, quantity)
                }
            }
        }),
{
    law_derivation(state, goal, arithmetic);
}

/// No step touches the inputs or takes a derived quantity away, and every
/// step keeps the state ordered: nothing comes to be held without what it
/// is derived from.
pub proof fn law_step_keeps_order(
    state: FlowState,
    target: Quantity,
    value: Double,
    quantity: Quantity,
)
    ensures
        begin(state, target).0.inputs == state.inputs,
        advance(state, value).0.inputs == state.inputs,
        held(begin(state, target).0, quantity) == held(state, quantity),
        held(state, quantity) is Some ==> held(advance(state, value).0, quantity) is Some,
        state.ordered() ==> begin(state, target).0.ordered(),
        state.ordered() ==> advance(state, value).0.ordered(),
{
}

/// No derivation, carried on from any step, touches the inputs or takes a
/// derived quantity away, and it leaves an ordered state ordered.
pub proof fn law_run_keeps_order(
    state: FlowState,
    step: Step,
    quantity: Quantity,
    arithmetic: spec_fn(Formula) -> Double,
)
    ensures
        run(state, step, arithmetic).0.inputs == state.inputs,
        held(state, quantity) is Some ==> held(run(state, step, arithmetic).0, quantity) is Some,
        state.ordered() ==> run(state, step, arithmetic).0.ordered(),
    decreases evaluations_left(state, step),
{
    if let Step::Evaluate(formula) = step {
        let value = arithmetic(formula);
        law_step_keeps_order(state, Quantity::Velocity, value, quantity);
        law_run_keeps_order(advance(state, value).0, advance(state, value).1, quantity, arithmetic);
    }
}

} // verus!
