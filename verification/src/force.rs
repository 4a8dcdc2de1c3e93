//! The force model: the gravitational force between two bodies and the
//! velocity of a circular orbit of one body around another.
use vstd::prelude::*;
use crate::arithmetic::{Arithmetic, Model, Operation};
use crate::body::Body;
use crate::scalar::{is_zero, zero};
use crate::vector::{unit_z, Vector3};

verus! {

/// The gravitational constant of the simulation: 0.00000001. It is a
/// scaling chosen for slow, stable orbits of masses between a thousand and a
/// hundred million at distances between one and a hundred.
pub const G: u64 = 0x3E45_798E_E230_8C3A;

/// What the engine refuses.
#[derive(Clone, Copy, Debug, PartialEq, Eq, Structural)]
pub enum SimulationError {
    /// Two positions have no separation where a division by it is asked for.
    DegenerateGeometry,
    /// A simulation is asked for, or an aggregate taken, of no body at all.
    EmptyState,
    /// A mass that is not a number greater than zero and finite.
    InvalidMass,
}

impl Model {
    /// The squared separation `|a.position - b.position|²` that the force
    /// between `a` and `b` is divided by.
    pub open spec fn separation2(self, a: Body, b: Body) -> u64 {
        self.magnitude2(self.vector_difference(a.position, b.position))
    }

    /// The magnitude of the force between `a` and `b`:
    /// `G * a.mass * b.mass / |a.position - b.position|²`.
    pub open spec fn force(self, a: Body, b: Body) -> u64 {
        self.quotient(self.product(self.product(G, a.mass), b.mass), self.separation2(a, b))
    }

    /// The force between `a` and `b`, or the refusal of a pair without
    /// separation.
    pub open spec fn force_between(self, a: Body, b: Body) -> Result<u64, SimulationError> {
        if is_zero(self.separation2(a, b)) {
            Err(SimulationError::DegenerateGeometry)
        } else {
            Ok(self.force(a, b))
        }
    }

    /// The distance `|b.position - a.position|` from `a` to the body `b` it
    /// is to orbit.
    pub open spec fn orbit_radius(self, a: Body, b: Body) -> u64 {
        self.magnitude(self.vector_difference(b.position, a.position))
    }

    /// The speed of the circular orbit of `a` around `b`:
    /// `sqrt(G * (a.mass + b.mass) / r) * (b.mass / (a.mass + b.mass))`.
    pub open spec fn orbital_speed(self, a: Body, b: Body) -> u64 {
        let total = self.sum(a.mass, b.mass);
        self.product(
            self.root(self.quotient(self.product(G, total), self.orbit_radius(a, b))),
            self.quotient(b.mass, total),
        )
    }

    /// The direction of that orbit: the unit vector from `a` to `b`, crossed
    /// with the up axis.
    pub open spec fn orbital_direction(self, a: Body, b: Body) -> Vector3 {
        self.cross(self.normalized(self.vector_difference(b.position, a.position)), unit_z())
    }

    /// The velocity of the circular orbit of `a` around `b`.
    pub open spec fn orbit(self, a: Body, b: Body) -> Vector3 {
        self.multiple(self.orbital_speed(a, b), self.orbital_direction(a, b))
    }

    /// The velocity of the circular orbit of `a` around `b`, or the refusal
    /// of a pair without separation.
    pub open spec fn orbit_around(self, a: Body, b: Body) -> Result<Vector3, SimulationError> {
        if is_zero(self.orbit_radius(a, b)) {
            Err(SimulationError::DegenerateGeometry)
        } else {
            Ok(self.orbit(a, b))
        }
    }
}

/// The magnitude of the gravitational force between `a` and `b`.
///
/// Fails with `DegenerateGeometry` exactly when the squared separation of
/// the two positions is zero.
pub fn gravitational_force<F: Fn(Operation, u64, u64) -> u64>(
    arithmetic: &Arithmetic<F>,
    a: &Body,
    b: &Body,
) -> (r: Result<u64, SimulationError>)
    ensures
        r == arithmetic@.force_between(*a, *b),
{
    let displacement: Vector3 = arithmetic.subtract_vectors(a.position, b.position);
    let separation2: u64 = arithmetic.squared_length(displacement);
    if zero(separation2) {
        return Err(SimulationError::DegenerateGeometry);
    }
    let scaled_mass: u64 = arithmetic.times(G, a.mass);
    let masses: u64 = arithmetic.times(scaled_mass, b.mass);
    Ok(arithmetic.over(masses, separation2))
}

/// The velocity that `a` needs, in world space, for a circular orbit around
/// `b` in the plane perpendicular to the up axis.
///
/// Fails with `DegenerateGeometry` exactly when the distance between the two
/// positions is zero.
pub fn orbital_velocity<F: Fn(Operation, u64, u64) -> u64>(
    arithmetic: &Arithmetic<F>,
    a: &Body,
    b: &Body,
) -> (r: Result<Vector3, SimulationError>)
    ensures
        r == arithmetic@.orbit_around(*a, *b),
{
    let total: u64 = arithmetic.plus(a.mass, b.mass);
    let gravitational_parameter: u64 = arithmetic.times(G, total);
    let displacement: Vector3 = arithmetic.subtract_vectors(b.position, a.position);
    let radius: u64 = arithmetic.length(displacement);
    if zero(radius) {
        return Err(SimulationError::DegenerateGeometry);
    }
    let v: u64 = arithmetic.sqrt(arithmetic.over(gravitational_parameter, radius));
    let share: u64 = arithmetic.over(b.mass, total);
    let speed: u64 = arithmetic.times(v, share);
    let direction: Vector3 = arithmetic.cross_product(
        arithmetic.normalize(displacement),
        Vector3::unit_z(),
    );
    Ok(arithmetic.multiply(speed, direction))
}

} // verus!
