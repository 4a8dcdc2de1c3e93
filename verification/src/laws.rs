//! Laws of the engine: what holds of every state and every request,
//! whatever the arithmetic unit computes.
use vstd::prelude::*;
use crate::arithmetic::{Arithmetic, Model, Operation};
use crate::body::{Body, BodyMass};
use crate::force::SimulationError;
use crate::insertion::{strongest, strongest_is_first_greatest};
use crate::scalar::{at_most, is_magnitude, magnitudes_order_as_bits};
use crate::vector::Vector3;

verus! {

/// Two arithmetic units have the same result for every operation on every
/// pair of operands.
pub open spec fn agree<F1: Fn(Operation, u64, u64) -> u64, F2: Fn(Operation, u64, u64) -> u64>(
    first: Arithmetic<F1>,
    second: Arithmetic<F2>,
) -> bool {
    forall|op: Operation, a: u64, b: u64| #[trigger]
        first@.apply(op, a, b) == second@.apply(op, a, b)
}

/// Units that agree have the same mathematical function.
pub proof fn units_that_agree_are_one_function<
    F1: Fn(Operation, u64, u64) -> u64,
    F2: Fn(Operation, u64, u64) -> u64,
>(first: Arithmetic<F1>, second: Arithmetic<F2>)
    requires
        agree(first, second),
    ensures
        first@ == second@,
{
    assert forall|op: Operation, a: u64, b: u64| #[trigger]
        (first@.outcome)(op, a, b) == (second@.outcome)(op, a, b) by {
        assert(first@.apply(op, a, b) == second@.apply(op, a, b));
    }
}

/// A body adds nothing to its own velocity, wherever it and the other bodies
/// are: passing over its own index leaves the accumulated velocity as it
/// was. Every other index is asked for its pull, also one whose body is
/// equal to the target in every field.
pub proof fn a_body_never_pulls_on_itself(
    model: Model,
    bodies: Seq<Body>,
    target: int,
    source: int,
    velocity: Vector3,
)
    ensures
        model.pulled(bodies, target, target, velocity) == velocity,
        model.accumulated(bodies, target, target + 1) == model.accumulated(bodies, target, target),
        source != target ==> model.pulled(bodies, target, source, velocity) == match model.pull(
            bodies[target],
            bodies[source],
        ) {
            Some(change) => model.vector_sum(velocity, change),
            None => velocity,
        },
{
}

/// In a system of one body a tick leaves the velocity of that body as it
/// was and moves the body by it.
pub proof fn a_lone_body_moves_uniformly(model: Model, body: Body)
    ensures
        model.advanced(seq![body]) == seq![
            Body {
                position: model.vector_sum(body.position, body.velocity),
                velocity: body.velocity,
                mass: body.mass,
            },
        ],
{
    let bodies = seq![body];
    assert(model.accumulated(bodies, 0, 1) == model.pulled(
        bodies,
        0,
        0,
        model.accumulated(bodies, 0, 0),
    ));
}

/// A tick keeps the number of bodies, their order and their masses.
pub proof fn a_tick_keeps_every_body(model: Model, bodies: Seq<Body>)
    ensures
        model.advanced(bodies).len() == bodies.len(),
        forall|i: int|
            0 <= i < bodies.len() ==> (#[trigger] model.advanced(bodies)[i]).mass
                == bodies[i].mass,
{
}

/// Where there is exactly one body, a new body is made to orbit it, whatever
/// the position and the mass class: the barycenter is never used then.
pub proof fn a_sole_body_is_the_anchor(
    model: Model,
    bodies: Seq<Body>,
    position: Vector3,
    class: BodyMass,
)
    requires
        bodies.len() == 1,
    ensures
        model.anchor(bodies, Body::resting(position, class)) == Some(0int),
        model.insertion_velocity(bodies, Body::resting(position, class))
            == match model.orbit_around(Body::resting(position, class), bodies[0]) {
            Ok(v) => Ok::<Vector3, SimulationError>(model.vector_sum(v, bodies[0].velocity)),
            Err(e) => Err::<Vector3, SimulationError>(e),
        },
{
}

/// Among two bodies or more that can be ranked, the two that a new body may
/// be made to orbit are the two strongest attractors: they are two different
/// bodies, no body exerts a greater force on the new body than the first,
/// and no body but the first a greater force than the second.
pub proof fn the_anchor_is_one_of_the_two_strongest(
    model: Model,
    bodies: Seq<Body>,
    candidate: Body,
)
    requires
        bodies.len() >= 2,
        model.rankable(bodies, candidate),
    ensures
        ({
            let forces = model.attractions(bodies, candidate);
            let first = strongest(forces, -1, bodies.len() as int);
            let second = strongest(forces, first, bodies.len() as int);
            &&& 0 <= first < bodies.len()
            &&& 0 <= second < bodies.len()
            &&& first != second
            &&& forall|k: int| 0 <= k < bodies.len() ==> at_most(#[trigger] forces[k], forces[first])
            &&& forall|k: int|
                0 <= k < bodies.len() && k != first ==> at_most(
                    #[trigger] forces[k],
                    forces[second],
                )
            &&& model.anchor(bodies, candidate) matches Some(k) ==> k == first || k == second
        }),
{
    let forces = model.attractions(bodies, candidate);
    let n = bodies.len() as int;
    let first = strongest(forces, -1, n);
    strongest_is_first_greatest(forces, -1, n);
    let second = strongest(forces, first, n);
    strongest_is_first_greatest(forces, first, n);
    assert forall|k: int| 0 <= k < n implies is_magnitude(#[trigger] forces[k]) by {}
    assert forall|k: int| 0 <= k < n implies at_most(#[trigger] forces[k], forces[first]) by {
        magnitudes_order_as_bits(forces[k], forces[first]);
    }
    assert forall|k: int| 0 <= k < n && k != first implies at_most(
        #[trigger] forces[k],
        forces[second],
    ) by {
        magnitudes_order_as_bits(forces[k], forces[second]);
    }
}

/// An insertion is a function of the bodies, the position and the mass
/// class: on two copies of a state, each with its own arithmetic unit, the
/// same request adds the same body, bit for bit, or is refused for the same
/// reason, provided that the two units agree.
pub proof fn insertion_is_deterministic<
    F1: Fn(Operation, u64, u64) -> u64,
    F2: Fn(Operation, u64, u64) -> u64,
>(
    first: Arithmetic<F1>,
    second: Arithmetic<F2>,
    bodies: Seq<Body>,
    position: Vector3,
    class: BodyMass,
)
    requires
        agree(first, second),
    ensures
        first@.insertion(bodies, position, class) == second@.insertion(bodies, position, class),
{
    units_that_agree_are_one_function(first, second);
}

/// A tick is a function of the bodies: on two copies of a state, each with
/// its own arithmetic unit, it gives the same successors, bit for bit,
/// provided that the two units agree.
pub proof fn tick_is_deterministic<
    F1: Fn(Operation, u64, u64) -> u64,
    F2: Fn(Operation, u64, u64) -> u64,
>(first: Arithmetic<F1>, second: Arithmetic<F2>, bodies: Seq<Body>)
    requires
        agree(first, second),
    ensures
        first@.advanced(bodies) == second@.advanced(bodies),
{
    units_that_agree_are_one_function(first, second);
}

} // verus!
