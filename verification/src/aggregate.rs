//! Aggregates of a collection of bodies: the total mass, the barycenter and
//! the projection that a renderer draws.
use vstd::prelude::*;
use crate::arithmetic::{Arithmetic, Model, Operation};
use crate::body::Body;
use crate::force::SimulationError;
use crate::scalar::{ONE, ZERO};
use crate::vector::{zero_vector, Vector3};

verus! {

/// The divisor that turns the logarithm of a mass into a drawn radius: 7.
pub const SCALE_DIVISOR: u64 = 0x401C_0000_0000_0000;

/// Red, green, blue and opacity of a drawn body.
#[derive(Clone, Copy, Debug, PartialEq, Eq, Structural)]
pub struct Color {
    pub red: u64,
    pub green: u64,
    pub blue: u64,
    pub alpha: u64,
}

/// What a renderer draws for one body.
#[derive(Clone, Copy, Debug, PartialEq, Eq, Structural)]
pub struct Instance {
    pub position: Vector3,
    pub color: Color,
    pub scale: u64,
}

/// The colour of every body: red 0, green 0.2, blue 0.6, opaque.
pub open spec fn body_color() -> Color {
    Color {
        red: ZERO,
        green: 0x3FC9_9999_9999_999A,
        blue: 0x3FE3_3333_3333_3333,
        alpha: ONE,
    }
}

impl Color {
    /// The colour of every body.
    pub fn body() -> (color: Color)
        ensures
            color == body_color(),
    {
        Color {
            red: ZERO,
            green: 0x3FC9_9999_9999_999A,
            blue: 0x3FE3_3333_3333_3333,
            alpha: ONE,
        }
    }
}

impl Model {
    /// The sum of the masses of the first `upto` bodies, added one by one to
    /// zero in the order of the collection.
    pub open spec fn mass_sum(self, bodies: Seq<Body>, upto: int) -> u64
        decreases upto,
    {
        if upto <= 0 {
            ZERO
        } else {
            self.sum(self.mass_sum(bodies, upto - 1), bodies[upto - 1].mass)
        }
    }

    /// The sum of `mass * position` over the first `upto` bodies, added one
    /// by one to the zero vector in the order of the collection.
    pub open spec fn moment_sum(self, bodies: Seq<Body>, upto: int) -> Vector3
        decreases upto,
    {
        if upto <= 0 {
            zero_vector()
        } else {
            self.vector_sum(
                self.moment_sum(bodies, upto - 1),
                self.multiple(bodies[upto - 1].mass, bodies[upto - 1].position),
            )
        }
    }

    /// The sum of all masses.
    pub open spec fn total_mass(self, bodies: Seq<Body>) -> u64 {
        self.mass_sum(bodies, bodies.len() as int)
    }

    /// The mass-weighted average position: the sum of `mass * position`
    /// divided by the sum of the masses.
    pub open spec fn center_of_mass(self, bodies: Seq<Body>) -> Vector3 {
        self.vector_quotient(
            self.moment_sum(bodies, bodies.len() as int),
            self.total_mass(bodies),
        )
    }

    /// The radius at which a body is drawn: the logarithm of its mass to
    /// base ten, divided by seven.
    pub open spec fn drawn_scale(self, body: Body) -> u64 {
        self.quotient(self.logarithm(body.mass), SCALE_DIVISOR)
    }

    /// What is drawn for a body: its position, the one colour of all bodies
    /// and its drawn radius.
    pub open spec fn projection(self, body: Body) -> Instance {
        Instance { position: body.position, color: body_color(), scale: self.drawn_scale(body) }
    }

    /// What is drawn for each body of a collection, in its order.
    pub open spec fn projections(self, bodies: Seq<Body>) -> Seq<Instance> {
        Seq::new(bodies.len(), |i: int| self.projection(bodies[i]))
    }
}

/// The sum of the masses of `bodies`.
pub fn total_mass_of<F: Fn(Operation, u64, u64) -> u64>(
    arithmetic: &Arithmetic<F>,
    bodies: &Vec<Body>,
) -> (total: u64)
    ensures
        total == arithmetic@.total_mass(bodies@),
{
    let mut total: u64 = ZERO;
    let mut i: usize = 0;
    while i < bodies.len()
        invariant
            i <= bodies.len(),
            total == arithmetic@.mass_sum(bodies@, i as int),
        decreases bodies.len() - i,
    {
        total = arithmetic.plus(total, bodies[i].mass);
        i += 1;
    }
    total
}

/// The mass-weighted average position of `bodies`, of which there is one at
/// least.
pub(crate) fn center_of<F: Fn(Operation, u64, u64) -> u64>(
    arithmetic: &Arithmetic<F>,
    bodies: &Vec<Body>,
) -> (center: Vector3)
    requires
        bodies.len() > 0,
    ensures
        center == arithmetic@.center_of_mass(bodies@),
{
    let total: u64 = total_mass_of(arithmetic, bodies);
    let mut moment: Vector3 = Vector3::zero();
    let mut i: usize = 0;
    while i < bodies.len()
        invariant
            i <= bodies.len(),
            moment == arithmetic@.moment_sum(bodies@, i as int),
        decreases bodies.len() - i,
    {
        let weighted: Vector3 = arithmetic.multiply(bodies[i].mass, bodies[i].position);
        moment = arithmetic.add_vectors(moment, weighted);
        i += 1;
    }
    arithmetic.divide(moment, total)
}

/// The barycenter of `bodies`: their mass-weighted average position.
///
/// Fails with `EmptyState` exactly when there is no body.
pub fn barycenter_for_bodies<F: Fn(Operation, u64, u64) -> u64>(
    arithmetic: &Arithmetic<F>,
    bodies: &Vec<Body>,
) -> (r: Result<Vector3, SimulationError>)
    ensures
        bodies.len() == 0 ==> r == Err::<Vector3, SimulationError>(SimulationError::EmptyState),
        bodies.len() > 0 ==> r == Ok::<Vector3, SimulationError>(
            arithmetic@.center_of_mass(bodies@),
        ),
{
    if bodies.len() == 0 {
        return Err(SimulationError::EmptyState);
    }
    Ok(center_of(arithmetic, bodies))
}

/// What a renderer draws for each of `bodies`, in their order.
pub fn project<F: Fn(Operation, u64, u64) -> u64>(
    arithmetic: &Arithmetic<F>,
    bodies: &Vec<Body>,
) -> (instances: Vec<Instance>)
    ensures
        instances@ == arithmetic@.projections(bodies@),
{
    let mut instances: Vec<Instance> = Vec::new();
    let mut i: usize = 0;
    while i < bodies.len()
        invariant
            i <= bodies.len(),
            instances.len() == i,
            forall|k: int| 0 <= k < i ==> instances[k] == arithmetic@.projection(bodies[k]),
        decreases bodies.len() - i,
    {
        let body: Body = bodies[i];
        let scale: u64 = arithmetic.over(arithmetic.log10(body.mass), SCALE_DIVISOR);
        instances.push(Instance { position: body.position, color: Color::body(), scale });
        i += 1;
    }
    instances
}

} // verus!
