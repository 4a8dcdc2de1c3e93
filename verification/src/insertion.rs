//! The insertion heuristic: where a new body is put, which existing body it
//! is made to orbit, and with what velocity.
//!
//! The existing bodies are ranked by the force each exerts on the new body,
//! strongest first and, among equal forces, lowest index first. The new body
//! orbits the strongest attractor if it lies within a fifth of the distance
//! between the two strongest, else the second strongest on the same
//! condition, else the barycenter of all existing bodies.
use vstd::prelude::*;
use crate::aggregate::{center_of, total_mass_of};
use crate::arithmetic::{Arithmetic, Model, Operation};
use crate::body::{Body, BodyMass};
use crate::force::{gravitational_force, orbital_velocity, SimulationError};
use crate::scalar::{at_most, is_magnitude, is_zero, less_or_equal, magnitude};
use crate::vector::{zero_vector, Vector3};

verus! {

/// The divisor that turns the distance between the two strongest attractors
/// into the radius within which a new body can orbit one of them: 5.
pub const ORBIT_DIVISOR: u64 = 0x4014_0000_0000_0000;

/// The index of the greatest of the forces at the indices below `upto`,
/// leaving out the index `skip`; among equal forces the lowest index; -1
/// where no index is left.
pub open spec fn strongest(forces: Seq<u64>, skip: int, upto: int) -> int
    decreases upto,
{
    if upto <= 0 {
        -1
    } else {
        let best = strongest(forces, skip, upto - 1);
        if upto - 1 == skip {
            best
        } else if best < 0 || forces[upto - 1] > forces[best] {
            upto - 1
        } else {
            best
        }
    }
}

/// The index that an optional index leaves out: -1 for none.
pub open spec fn skipped(skip: Option<usize>) -> int {
    match skip {
        Some(k) => k as int,
        None => -1,
    }
}

/// What `strongest` picks: an index below `upto` other than `skip`, whose
/// force no other such index exceeds and no lower such index equals; and it
/// picks none only where there is none to pick.
pub proof fn strongest_is_first_greatest(forces: Seq<u64>, skip: int, upto: int)
    requires
        0 <= upto <= forces.len(),
    ensures
        ({
            let best = strongest(forces, skip, upto);
            &&& -1 <= best < upto
            &&& best != -1 ==> best != skip
            &&& best == -1 <==> upto == 0 || (upto == 1 && skip == 0)
            &&& best != -1 ==> forall|k: int|
                0 <= k < upto && k != skip ==> forces[k] <= forces[best]
            &&& best != -1 ==> forall|k: int|
                0 <= k < best && k != skip ==> forces[k] < forces[best]
        }),
    decreases upto,
{
    if upto > 0 {
        strongest_is_first_greatest(forces, skip, upto - 1);
    }
}

/// The index of the greatest of `forces`, leaving out the index `skip` if
/// one is given; among equal forces the lowest index.
///
/// Returns `None` exactly when no index is left to pick.
pub fn strongest_attractor(forces: &Vec<u64>, skip: Option<usize>) -> (best: Option<usize>)
    ensures
        match best {
            Some(k) => k as int == strongest(forces@, skipped(skip), forces.len() as int),
            None => strongest(forces@, skipped(skip), forces.len() as int) == -1,
        },
{
    let mut best: Option<usize> = None;
    let mut i: usize = 0;
    while i < forces.len()
        invariant
            i <= forces.len(),
            match best {
                Some(k) => k < i && k as int == strongest(forces@, skipped(skip), i as int),
                None => strongest(forces@, skipped(skip), i as int) == -1,
            },
        decreases forces.len() - i,
    {
        let left_out: bool = match skip {
            Some(k) => k == i,
            None => false,
        };
        if !left_out {
            match best {
                Some(k) => {
                    if forces[i] > forces[k] {
                        best = Some(i);
                    }
                },
                None => {
                    best = Some(i);
                },
            }
        }
        i += 1;
    }
    best
}

impl Model {
    /// The force that each of `bodies` exerts on `candidate`, in their order.
    pub open spec fn attractions(self, bodies: Seq<Body>, candidate: Body) -> Seq<u64> {
        Seq::new(bodies.len(), |k: int| self.force(bodies[k], candidate))
    }

    /// The bodies can be ranked by their force on `candidate`: each has a
    /// separation from it and a force on it that is a number at or above
    /// zero.
    pub open spec fn rankable(self, bodies: Seq<Body>, candidate: Body) -> bool {
        forall|k: int|
            0 <= k < bodies.len() ==> !is_zero(#[trigger] self.separation2(bodies[k], candidate))
                && is_magnitude(self.force(bodies[k], candidate))
    }

    /// The greatest distance from one of the two strongest attractors at
    /// which a new body is made to orbit it: a fifth of the distance between
    /// the two.
    pub open spec fn orbit_limit(self, first: Body, second: Body) -> u64 {
        self.quotient(self.distance(first.position, second.position), ORBIT_DIVISOR)
    }

    /// The index of the body that `candidate` is made to orbit, if any: the
    /// only body where there is one; else the strongest attractor or the
    /// second strongest, whichever first has `candidate` within a fifth of
    /// the distance between the two; else none.
    pub open spec fn anchor(self, bodies: Seq<Body>, candidate: Body) -> Option<int> {
        let forces = self.attractions(bodies, candidate);
        let first = strongest(forces, -1, bodies.len() as int);
        let second = strongest(forces, first, bodies.len() as int);
        let limit = self.orbit_limit(bodies[first], bodies[second]);
        if bodies.len() == 0 {
            None
        } else if bodies.len() == 1 {
            Some(0)
        } else if at_most(self.distance(candidate.position, bodies[first].position), limit) {
            Some(first)
        } else if at_most(self.distance(candidate.position, bodies[second].position), limit) {
            Some(second)
        } else {
            None
        }
    }

    /// The body that stands for all of `bodies` where `candidate` has no
    /// anchor: at their barycenter, at rest, with their total mass.
    pub open spec fn barycenter_body(self, bodies: Seq<Body>) -> Body {
        Body {
            position: self.center_of_mass(bodies),
            velocity: zero_vector(),
            mass: self.total_mass(bodies),
        }
    }

    /// The velocity given to `candidate`: that of a circular orbit around
    /// its anchor plus the anchor's own velocity, or, without an anchor, that
    /// of a circular orbit around the barycenter body.
    pub open spec fn insertion_velocity(self, bodies: Seq<Body>, candidate: Body) -> Result<
        Vector3,
        SimulationError,
    > {
        match self.anchor(bodies, candidate) {
            Some(k) => match self.orbit_around(candidate, bodies[k]) {
                Ok(v) => Ok(self.vector_sum(v, bodies[k].velocity)),
                Err(e) => Err(e),
            },
            None => self.orbit_around(candidate, self.barycenter_body(bodies)),
        }
    }

    /// The body that an insertion at `position` with the mass of `class` adds
    /// to `bodies`, or the reason why it adds none: `EmptyState` where there
    /// is no body yet, `DegenerateGeometry` where the bodies cannot be ranked
    /// or the new body has no separation from what it is to orbit.
    pub open spec fn insertion(self, bodies: Seq<Body>, position: Vector3, class: BodyMass)
        -> Result<Body, SimulationError> {
        let candidate = Body::resting(position, class);
        if bodies.len() == 0 {
            Err(SimulationError::EmptyState)
        } else if !self.rankable(bodies, candidate) {
            Err(SimulationError::DegenerateGeometry)
        } else {
            match self.insertion_velocity(bodies, candidate) {
                Ok(velocity) => Ok(Body { position, velocity, mass: class.mass() }),
                Err(e) => Err(e),
            }
        }
    }
}

/// The force that each of `bodies` exerts on `candidate`, in their order.
///
/// Fails with `DegenerateGeometry` exactly when the bodies cannot be ranked
/// by these forces: when one of them has no separation from `candidate`, or
/// a force on it that is not a number at or above zero.
pub fn attractions_on<F: Fn(Operation, u64, u64) -> u64>(
    arithmetic: &Arithmetic<F>,
    bodies: &Vec<Body>,
    candidate: &Body,
) -> (r: Result<Vec<u64>, SimulationError>)
    ensures
        match r {
            Ok(forces) => arithmetic@.rankable(bodies@, *candidate) && forces@
                == arithmetic@.attractions(bodies@, *candidate),
            Err(e) => e == SimulationError::DegenerateGeometry && !arithmetic@.rankable(
                bodies@,
                *candidate,
            ),
        },
{
    let mut forces: Vec<u64> = Vec::new();
    let mut i: usize = 0;
    while i < bodies.len()
        invariant
            i <= bodies.len(),
            forces.len() == i,
            forall|k: int|
                0 <= k < i ==> !is_zero(#[trigger] arithmetic@.separation2(bodies[k], *candidate))
                    && is_magnitude(arithmetic@.force(bodies[k], *candidate)),
            forall|k: int| 0 <= k < i ==> forces[k] == arithmetic@.force(bodies[k], *candidate),
        decreases bodies.len() - i,
    {
        match gravitational_force(arithmetic, &bodies[i], candidate) {
            Ok(force) => {
                if !magnitude(force) {
                    return Err(SimulationError::DegenerateGeometry);
                }
                forces.push(force);
            },
            Err(_) => {
                return Err(SimulationError::DegenerateGeometry);
            },
        }
        i += 1;
    }
    Ok(forces)
}

/// The index of the body of `bodies` that `candidate` is made to orbit, or
/// `None` where it is to orbit their barycenter.
///
/// Fails with `DegenerateGeometry` exactly when the bodies cannot be ranked
/// by their force on `candidate`. Where there is exactly one body, that body
/// is the anchor.
pub fn orbit_anchor<F: Fn(Operation, u64, u64) -> u64>(
    arithmetic: &Arithmetic<F>,
    bodies: &Vec<Body>,
    candidate: &Body,
) -> (r: Result<Option<usize>, SimulationError>)
    ensures
        match r {
            Ok(Some(k)) => arithmetic@.rankable(bodies@, *candidate) && k < bodies.len()
                && arithmetic@.anchor(bodies@, *candidate) == Some(k as int),
            Ok(None) => arithmetic@.rankable(bodies@, *candidate) && arithmetic@.anchor(
                bodies@,
                *candidate,
            ) == None::<int>,
            Err(e) => e == SimulationError::DegenerateGeometry && !arithmetic@.rankable(
                bodies@,
                *candidate,
            ),
        },
        bodies.len() == 1 && arithmetic@.rankable(bodies@, *candidate) ==> r == Ok::<
            Option<usize>,
            SimulationError,
        >(Some(0)),
{
    let forces: Vec<u64> = match attractions_on(arithmetic, bodies, candidate) {
        Ok(forces) => forces,
        Err(e) => {
            return Err(e);
        },
    };
    if bodies.len() == 0 {
        return Ok(None);
    }
    if bodies.len() == 1 {
        return Ok(Some(0));
    }
    proof {
        strongest_is_first_greatest(forces@, -1, forces.len() as int);
    }
    let first: usize = match strongest_attractor(&forces, None) {
        Some(k) => k,
        None => {
            return Ok(None);
        },
    };
    proof {
        strongest_is_first_greatest(forces@, first as int, forces.len() as int);
    }
    let second: usize = match strongest_attractor(&forces, Some(first)) {
        Some(k) => k,
        None => {
            return Ok(None);
        },
    };
    let separation: u64 = arithmetic.distance_between(
        bodies[first].position,
        bodies[second].position,
    );
    let limit: u64 = arithmetic.over(separation, ORBIT_DIVISOR);
    let distance0: u64 = arithmetic.distance_between(candidate.position, bodies[first].position);
    let distance1: u64 = arithmetic.distance_between(candidate.position, bodies[second].position);
    if less_or_equal(distance0, limit) {
        Ok(Some(first))
    } else if less_or_equal(distance1, limit) {
        Ok(Some(second))
    } else {
        Ok(None)
    }
}

/// The body that an insertion at `position` with the mass of `class` adds to
/// `bodies`: at rest but for the velocity of a circular orbit around its
/// anchor, carried along with the anchor, or around the barycenter where it
/// has no anchor.
///
/// Fails with `EmptyState` exactly when there is no body yet, and otherwise
/// with `DegenerateGeometry` exactly when the bodies cannot be ranked by
/// their force on the new body or the new body has no separation from what
/// it is to orbit.
pub fn place<F: Fn(Operation, u64, u64) -> u64>(
    arithmetic: &Arithmetic<F>,
    bodies: &Vec<Body>,
    position: Vector3,
    class: BodyMass,
) -> (r: Result<Body, SimulationError>)
    ensures
        r == arithmetic@.insertion(bodies@, position, class),
        r is Ok ==> r->Ok_0.has_valid_mass(),
{
    let candidate: Body = Body::at_rest(position, class);
    if bodies.len() == 0 {
        return Err(SimulationError::EmptyState);
    }
    let anchor: Option<usize> = match orbit_anchor(arithmetic, bodies, &candidate) {
        Ok(anchor) => anchor,
        Err(e) => {
            return Err(e);
        },
    };
    let velocity: Vector3 = match anchor {
        Some(k) => {
            let target: Body = bodies[k];
            match orbital_velocity(arithmetic, &candidate, &target) {
                Ok(v) => arithmetic.add_vectors(v, target.velocity),
                Err(e) => {
                    return Err(e);
                },
            }
        },
        None => {
            let target: Body = Body {
                position: center_of(arithmetic, bodies),
                velocity: Vector3::zero(),
                mass: total_mass_of(arithmetic, bodies),
            };
            match orbital_velocity(arithmetic, &candidate, &target) {
                Ok(v) => v,
                Err(e) => {
                    return Err(e);
                },
            }
        },
    };
    Ok(Body { position, velocity, mass: candidate.mass })
}

} // verus!
