//! Bodies: point masses with a position and a velocity.
use vstd::prelude::*;
use crate::scalar::{is_positive_finite, positive_finite};
use crate::vector::{zero_vector, Vector3};

verus! {

/// The mass of a small body: 10.
pub const SMALL_MASS: u64 = 0x4024_0000_0000_0000;

/// The mass of a medium body: 1000.
pub const MEDIUM_MASS: u64 = 0x408F_4000_0000_0000;

/// The mass of a large body: 100000.
pub const LARGE_MASS: u64 = 0x40F8_6A00_0000_0000;

/// A point mass. A body has no identity of its own: within a simulation it
/// is known by its index, which never changes once the body is added.
#[derive(Clone, Copy, Debug, PartialEq, Eq, Structural)]
pub struct Body {
    pub position: Vector3,
    pub velocity: Vector3,
    pub mass: u64,
}

/// The three mass classes a new body can be given.
#[derive(Clone, Copy, Debug, PartialEq, Eq, Structural)]
pub enum BodyMass {
    Small,
    Medium,
    Large,
}

impl BodyMass {
    /// The mass that the class stands for.
    pub open spec fn mass(self) -> u64 {
        match self {
            BodyMass::Small => SMALL_MASS,
            BodyMass::Medium => MEDIUM_MASS,
            BodyMass::Large => LARGE_MASS,
        }
    }

    /// The mass that the class stands for.
    pub fn value(&self) -> (mass: u64)
        ensures
            mass == self.mass(),
            is_positive_finite(mass),
    {
        match self {
            BodyMass::Small => SMALL_MASS,
            BodyMass::Medium => MEDIUM_MASS,
            BodyMass::Large => LARGE_MASS,
        }
    }
}

impl Body {
    /// The mass is a number greater than zero and finite.
    pub open spec fn has_valid_mass(&self) -> bool {
        is_positive_finite(self.mass)
    }

    /// A body at rest at `position`, with the mass of `class`.
    pub open spec fn resting(position: Vector3, class: BodyMass) -> Body {
        Body { position, velocity: zero_vector(), mass: class.mass() }
    }

    /// A body at rest at `position`, with the mass of `class`.
    pub fn at_rest(position: Vector3, class: BodyMass) -> (body: Body)
        ensures
            body == Body::resting(position, class),
            body.has_valid_mass(),
    {
        Body { position, velocity: Vector3::zero(), mass: class.value() }
    }

    /// Whether the mass is a number greater than zero and finite.
    pub fn valid_mass(&self) -> (r: bool)
        ensures
            r == self.has_valid_mass(),
    {
        positive_finite(self.mass)
    }
}

/// Every body of the sequence has a valid mass.
pub open spec fn all_valid_masses(bodies: Seq<Body>) -> bool {
    forall|i: int| 0 <= i < bodies.len() ==> (#[trigger] bodies[i]).has_valid_mass()
}

} // verus!
