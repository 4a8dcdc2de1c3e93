//! The simulation state: two buffers of bodies, one of them current, and the
//! operations of the engine on them.
//!
//! A tick reads the current buffer only, writes every body's successor into
//! the other buffer and then makes that one current, so no reader ever sees
//! bodies of two ticks side by side. An insertion appends the new body to
//! both buffers, so it is there whichever buffer is current.
use vstd::prelude::*;
use crate::aggregate::{barycenter_for_bodies, project, Instance};
use crate::arithmetic::{Arithmetic, Model, Operation};
use crate::body::{all_valid_masses, Body, BodyMass};
use crate::force::{orbital_velocity, SimulationError};
use crate::insertion::place;
use crate::integrator::advance;
use crate::scalar::ZERO;
use crate::vector::{zero_vector, Vector3};

verus! {

/// The first coordinate of the first seed body: 10.
pub const SEED_DISTANCE: u64 = 0x4024_0000_0000_0000;

/// The factor that takes the position of the first seed body to that of the
/// second: -2.
pub const SEED_OPPOSITE: u64 = 0xC000_0000_0000_0000;

/// The mass of the first seed body: 10000000.
pub const SEED_MASS: u64 = 0x4163_12D0_0000_0000;

/// The mass of the second seed body, half that of the first: 5000000.
pub const SEED_COMPANION_MASS: u64 = 0x4153_12D0_0000_0000;

/// Which of the two buffers is current.
#[derive(Clone, Copy, Debug, PartialEq, Eq, Structural)]
pub enum SimulationBuffer {
    Buffer0,
    Buffer1,
}

impl SimulationBuffer {
    /// The other buffer.
    pub open spec fn other(self) -> SimulationBuffer {
        match self {
            SimulationBuffer::Buffer0 => SimulationBuffer::Buffer1,
            SimulationBuffer::Buffer1 => SimulationBuffer::Buffer0,
        }
    }
}

/// A gravitational system of point masses, advanced tick by tick with the
/// arithmetic unit it was made with.
pub struct Simulation<F: Fn(Operation, u64, u64) -> u64> {
    arithmetic: Arithmetic<F>,
    buffer0: Vec<Body>,
    buffer1: Vec<Body>,
    current_buffer: SimulationBuffer,
}

impl Model {
    /// The first seed body at rest: mass 10000000 at (10, 0, 0).
    pub open spec fn seed_primary(self) -> Body {
        Body {
            position: Vector3 { x: SEED_DISTANCE, y: ZERO, z: ZERO },
            velocity: zero_vector(),
            mass: SEED_MASS,
        }
    }

    /// The second seed body at rest: mass 5000000 at -2 times the position of
    /// the first.
    pub open spec fn seed_companion(self) -> Body {
        Body {
            position: self.multiple(SEED_OPPOSITE, self.seed_primary().position),
            velocity: zero_vector(),
            mass: SEED_COMPANION_MASS,
        }
    }

    /// The two seed bodies, each with the velocity of a circular orbit around
    /// the other, or the refusal of a unit under which the two have no
    /// separation.
    pub open spec fn seed(self) -> Result<Seq<Body>, SimulationError> {
        match self.orbit_around(self.seed_primary(), self.seed_companion()) {
            Err(e) => Err(e),
            Ok(v0) => match self.orbit_around(self.seed_companion(), self.seed_primary()) {
                Err(e) => Err(e),
                Ok(v1) => Ok(
                    seq![
                        Body { velocity: v0, ..self.seed_primary() },
                        Body { velocity: v1, ..self.seed_companion() },
                    ],
                ),
            },
        }
    }
}

impl<F: Fn(Operation, u64, u64) -> u64> Simulation<F> {
    /// The arithmetic unit of the simulation.
    pub closed spec fn arithmetic(&self) -> Arithmetic<F> {
        self.arithmetic
    }

    /// Which buffer is current.
    pub closed spec fn current(&self) -> SimulationBuffer {
        self.current_buffer
    }

    /// The bodies of the current buffer: the state of the system.
    pub closed spec fn bodies(&self) -> Seq<Body> {
        match self.current_buffer {
            SimulationBuffer::Buffer0 => self.buffer0@,
            SimulationBuffer::Buffer1 => self.buffer1@,
        }
    }

    /// The bodies of the other buffer, which the next tick overwrites.
    pub closed spec fn standby(&self) -> Seq<Body> {
        match self.current_buffer {
            SimulationBuffer::Buffer0 => self.buffer1@,
            SimulationBuffer::Buffer1 => self.buffer0@,
        }
    }

    /// The invariant of the state: there is a body; the two buffers hold the
    /// same number of bodies with the same masses; every mass is greater than
    /// zero and finite.
    pub open spec fn wf(&self) -> bool {
        &&& self.bodies().len() >= 1
        &&& self.standby().len() == self.bodies().len()
        &&& forall|i: int|
            0 <= i < self.bodies().len() ==> (#[trigger] self.standby()[i]).mass
                == self.bodies()[i].mass
        &&& all_valid_masses(self.bodies())
    }

    /// The seed system: two bodies in orbit around each other, of masses
    /// 10000000 at (10, 0, 0) and 5000000 at (-20, 0, 0).
    ///
    /// Fails with `DegenerateGeometry` exactly when, under the given unit,
    /// the two seed positions have no distance between them.
    pub fn new(arithmetic: Arithmetic<F>) -> (r: Result<Self, SimulationError>)
        ensures
            match r {
                Ok(simulation) => simulation.wf() && simulation.arithmetic() == arithmetic
                    && simulation.current() == SimulationBuffer::Buffer0 && arithmetic@.seed()
                    == Ok::<Seq<Body>, SimulationError>(simulation.bodies())
                    && simulation.standby() == simulation.bodies(),
                Err(e) => arithmetic@.seed() == Err::<Seq<Body>, SimulationError>(e),
            },
    {
        let position0: Vector3 = Vector3::new(SEED_DISTANCE, ZERO, ZERO);
        let body0: Body = Body { position: position0, velocity: Vector3::zero(), mass: SEED_MASS };
        let body1: Body = Body {
            position: arithmetic.multiply(SEED_OPPOSITE, position0),
            velocity: Vector3::zero(),
            mass: SEED_COMPANION_MASS,
        };
        let velocity0: Vector3 = match orbital_velocity(&arithmetic, &body0, &body1) {
            Ok(v) => v,
            Err(e) => {
                return Err(e);
            },
        };
        let velocity1: Vector3 = match orbital_velocity(&arithmetic, &body1, &body0) {
            Ok(v) => v,
            Err(e) => {
                return Err(e);
            },
        };
        let mut buffer0: Vec<Body> = Vec::new();
        buffer0.push(Body { position: body0.position, velocity: velocity0, mass: body0.mass });
        buffer0.push(Body { position: body1.position, velocity: velocity1, mass: body1.mass });
        let mut buffer1: Vec<Body> = Vec::new();
        buffer1.push(Body { position: body0.position, velocity: velocity0, mass: body0.mass });
        buffer1.push(Body { position: body1.position, velocity: velocity1, mass: body1.mass });
        assert(buffer0@ =~= arithmetic@.seed()->Ok_0);
        Ok(Simulation { arithmetic, buffer0, buffer1, current_buffer: SimulationBuffer::Buffer0 })
    }

    /// A system of the given bodies, in their order, as the content of both
    /// buffers.
    ///
    /// Fails with `EmptyState` exactly when `bodies` is empty, and otherwise
    /// with `InvalidMass` exactly when the mass of one of them is not a
    /// number greater than zero and finite.
    pub fn from_bodies(arithmetic: Arithmetic<F>, bodies: Vec<Body>) -> (r: Result<
        Self,
        SimulationError,
    >)
        ensures
            match r {
                Ok(simulation) => simulation.wf() && simulation.arithmetic() == arithmetic
                    && simulation.current() == SimulationBuffer::Buffer0 && simulation.bodies()
                    == bodies@ && simulation.standby() == bodies@,
                Err(e) => if bodies.len() == 0 {
                    e == SimulationError::EmptyState
                } else {
                    e == SimulationError::InvalidMass && !all_valid_masses(bodies@)
                },
            },
            bodies.len() > 0 && all_valid_masses(bodies@) ==> r is Ok,
    {
        if bodies.len() == 0 {
            return Err(SimulationError::EmptyState);
        }
        let mut copy: Vec<Body> = Vec::new();
        let mut i: usize = 0;
        while i < bodies.len()
            invariant
                i <= bodies.len(),
                copy.len() == i,
                forall|k: int| 0 <= k < i ==> copy[k] == bodies[k],
                forall|k: int| 0 <= k < i ==> (#[trigger] bodies[k]).has_valid_mass(),
            decreases bodies.len() - i,
        {
            if !bodies[i].valid_mass() {
                return Err(SimulationError::InvalidMass);
            }
            copy.push(bodies[i]);
            i += 1;
        }
        Ok(
            Simulation {
                arithmetic,
                buffer0: bodies,
                buffer1: copy,
                current_buffer: SimulationBuffer::Buffer0,
            },
        )
    }

    /// The bodies of the current buffer.
    pub fn current_buffer(&self) -> (buffer: &Vec<Body>)
        ensures
            buffer@ == self.bodies(),
    {
        match self.current_buffer {
            SimulationBuffer::Buffer0 => &self.buffer0,
            SimulationBuffer::Buffer1 => &self.buffer1,
        }
    }

    /// The barycenter of the system: the mass-weighted average of the
    /// positions of the current buffer.
    ///
    /// Fails with `EmptyState` exactly when the current buffer holds no body,
    /// which is never so of a state that meets its invariant.
    pub fn barycenter(&self) -> (r: Result<Vector3, SimulationError>)
        ensures
            self.bodies().len() == 0 ==> r == Err::<Vector3, SimulationError>(
                SimulationError::EmptyState,
            ),
            self.bodies().len() > 0 ==> r == Ok::<Vector3, SimulationError>(
                self.arithmetic()@.center_of_mass(self.bodies()),
            ),
            self.wf() ==> r is Ok,
    {
        barycenter_for_bodies(&self.arithmetic, self.current_buffer())
    }

    /// What a renderer draws: for each body of the current buffer, in order,
    /// its position, the colour of all bodies and its drawn radius.
    pub fn instances(&self) -> (instances: Vec<Instance>)
        ensures
            instances@ == self.arithmetic()@.projections(self.bodies()),
    {
        project(&self.arithmetic, self.current_buffer())
    }

    /// Adds a body with the mass of `mass` at `barycentric_position`, on an
    /// orbit around the existing body that the insertion heuristic picks, or
    /// around the barycenter where it picks none.
    ///
    /// On success the new body is the last of both buffers and nothing else
    /// has changed. Fails with `DegenerateGeometry`, changing nothing,
    /// exactly when the heuristic refuses the position.
    pub fn add_body_at_position(&mut self, barycentric_position: Vector3, mass: BodyMass) -> (r:
        Result<(), SimulationError>)
        requires
            old(self).wf(),
        ensures
            final(self).wf(),
            final(self).arithmetic() == old(self).arithmetic(),
            final(self).current() == old(self).current(),
            match r {
                Ok(()) => {
                    let inserted = old(self).arithmetic()@.insertion(
                        old(self).bodies(),
                        barycentric_position,
                        mass,
                    );
                    &&& inserted is Ok
                    &&& final(self).bodies() == old(self).bodies().push(inserted->Ok_0)
                    &&& final(self).standby() == old(self).standby().push(inserted->Ok_0)
                },
                Err(e) => {
                    &&& e == SimulationError::DegenerateGeometry
                    &&& old(self).arithmetic()@.insertion(
                        old(self).bodies(),
                        barycentric_position,
                        mass,
                    ) == Err::<Body, SimulationError>(e)
                    &&& final(self).bodies() == old(self).bodies()
                    &&& final(self).standby() == old(self).standby()
                },
            },
    {
        let new_body: Body = match place(
            &self.arithmetic,
            self.current_buffer(),
            barycentric_position,
            mass,
        ) {
            Ok(body) => body,
            Err(e) => {
                return Err(e);
            },
        };
        self.buffer0.push(new_body);
        self.buffer1.push(new_body);
        Ok(())
    }

    /// Advances the system by one tick: every body's successor is computed
    /// from the current buffer, written to the other buffer, and that buffer
    /// becomes the current one. The buffer that was current is left as it
    /// was.
    pub fn tick(&mut self)
        requires
            old(self).wf(),
        ensures
            final(self).wf(),
            final(self).arithmetic() == old(self).arithmetic(),
            final(self).current() == old(self).current().other(),
            final(self).bodies() == old(self).arithmetic()@.advanced(old(self).bodies()),
            final(self).standby() == old(self).bodies(),
    {
        let next: Vec<Body> = advance(&self.arithmetic, self.current_buffer());
        match self.current_buffer {
            SimulationBuffer::Buffer0 => {
                self.buffer1 = next;
                self.current_buffer = SimulationBuffer::Buffer1;
            },
            SimulationBuffer::Buffer1 => {
                self.buffer0 = next;
                self.current_buffer = SimulationBuffer::Buffer0;
            },
        }
    }
}

} // verus!
