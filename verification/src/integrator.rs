//! The integrator: one tick of every body under the pull of all the others.
//!
//! A body is told from the others by its index alone, so a body never pulls
//! on itself, wherever the others are. A pair of bodies without separation
//! has no direction to pull in: such a pair contributes nothing to either
//! body in that tick.
use vstd::prelude::*;
use crate::arithmetic::{Arithmetic, Model, Operation};
use crate::body::Body;
use crate::force::gravitational_force;
use crate::vector::Vector3;

verus! {

impl Model {
    /// The change of the velocity of `target` that `source` causes in one
    /// tick: `(force / target.mass) * normalize(source.position -
    /// target.position)`, or nothing where the two have no separation.
    pub open spec fn pull(self, target: Body, source: Body) -> Option<Vector3> {
        match self.force_between(target, source) {
            Ok(force) => Some(
                self.multiple(
                    self.quotient(force, target.mass),
                    self.normalized(self.vector_difference(source.position, target.position)),
                ),
            ),
            Err(_) => None,
        }
    }

    /// What the body at index `source` adds to the velocity `velocity` of the
    /// body at index `target`: nothing where the two indices are the same.
    pub open spec fn pulled(self, bodies: Seq<Body>, target: int, source: int, velocity: Vector3)
        -> Vector3 {
        if source == target {
            velocity
        } else {
            match self.pull(bodies[target], bodies[source]) {
                Some(change) => self.vector_sum(velocity, change),
                None => velocity,
            }
        }
    }

    /// The velocity of the body at index `target` after the pulls of the
    /// bodies at the indices below `upto`, taken in rising order.
    pub open spec fn accumulated(self, bodies: Seq<Body>, target: int, upto: int) -> Vector3
        decreases upto,
    {
        if upto <= 0 {
            bodies[target].velocity
        } else {
            self.pulled(bodies, target, upto - 1, self.accumulated(bodies, target, upto - 1))
        }
    }

    /// The body at index `target` one tick later: its new velocity is the old
    /// one after the pulls of all other bodies, its new position the old one
    /// plus the new velocity, its mass unchanged.
    pub open spec fn successor(self, bodies: Seq<Body>, target: int) -> Body {
        let velocity = self.accumulated(bodies, target, bodies.len() as int);
        Body {
            position: self.vector_sum(bodies[target].position, velocity),
            velocity,
            mass: bodies[target].mass,
        }
    }

    /// Every body one tick later, each computed from the same snapshot.
    pub open spec fn advanced(self, bodies: Seq<Body>) -> Seq<Body> {
        Seq::new(bodies.len(), |i: int| self.successor(bodies, i))
    }
}

/// The change of the velocity of `target` that `source` causes in one tick,
/// or `None` where the two have no separation.
pub fn velocity_change<F: Fn(Operation, u64, u64) -> u64>(
    arithmetic: &Arithmetic<F>,
    target: &Body,
    source: &Body,
) -> (change: Option<Vector3>)
    ensures
        change == arithmetic@.pull(*target, *source),
{
    match gravitational_force(arithmetic, target, source) {
        Ok(force) => {
            let displacement: Vector3 = arithmetic.subtract_vectors(
                source.position,
                target.position,
            );
            let d_velocity: u64 = arithmetic.over(force, target.mass);
            Some(arithmetic.multiply(d_velocity, arithmetic.normalize(displacement)))
        },
        Err(_) => None,
    }
}

/// The body at index `target` of `bodies` one tick later.
fn successor_of<F: Fn(Operation, u64, u64) -> u64>(
    arithmetic: &Arithmetic<F>,
    bodies: &Vec<Body>,
    target: usize,
) -> (next: Body)
    requires
        target < bodies.len(),
    ensures
        next == arithmetic@.successor(bodies@, target as int),
{
    let current: Body = bodies[target];
    let mut velocity: Vector3 = current.velocity;
    let mut source: usize = 0;
    while source < bodies.len()
        invariant
            target < bodies.len(),
            source <= bodies.len(),
            current == bodies[target as int],
            velocity == arithmetic@.accumulated(bodies@, target as int, source as int),
        decreases bodies.len() - source,
    {
        if source != target {
            match velocity_change(arithmetic, &current, &bodies[source]) {
                Some(change) => {
                    velocity = arithmetic.add_vectors(velocity, change);
                },
                None => {},
            }
        }
        source += 1;
    }
    Body {
        position: arithmetic.add_vectors(current.position, velocity),
        velocity,
        mass: current.mass,
    }
}

/// Every body of `bodies` one tick later.
pub fn advance<F: Fn(Operation, u64, u64) -> u64>(
    arithmetic: &Arithmetic<F>,
    bodies: &Vec<Body>,
) -> (next: Vec<Body>)
    ensures
        next@ == arithmetic@.advanced(bodies@),
{
    let mut next: Vec<Body> = Vec::new();
    let mut i: usize = 0;
    while i < bodies.len()
        invariant
            i <= bodies.len(),
            next.len() == i,
            forall|k: int| 0 <= k < i ==> next[k] == arithmetic@.successor(bodies@, k),
        decreases bodies.len() - i,
    {
        let body: Body = successor_of(arithmetic, bodies, i);
        next.push(body);
        i += 1;
    }
    next
}

} // verus!
