//! A gravitational N-body engine: point masses, a pairwise-force integrator,
//! a circular-orbit solver and a heuristic that places a new body on a
//! plausible orbit, with the controls and the configuration of a viewer
//! around it.
//!
//! The engine never computes with a real number itself. Numbers are carried
//! as binary64 bit patterns and every sum, product, quotient, root and
//! logarithm is asked of an arithmetic unit that the caller supplies
//! ([`arithmetic::Arithmetic`]). What is proved is everything around those
//! operations, for every unit: which operations are applied to which
//! operands in which order, which bodies interact, which body a new one
//! orbits, when a request is refused, and how the two state buffers
//! alternate.
//!
//! The engine:
//! - [`scalar`]: what is asked of a bit pattern without computing with it;
//! - [`arithmetic`]: the arithmetic unit and its mathematical function;
//! - [`vector`]: three-component vectors;
//! - [`body`]: bodies and mass classes;
//! - [`force`]: gravitational force and orbital velocity;
//! - [`aggregate`]: total mass, barycenter and what a renderer draws;
//! - [`integrator`]: one tick of all bodies;
//! - [`insertion`]: the placement of a new body;
//! - [`simulation`]: the double-buffered state and its operations;
//! - [`laws`]: what holds of every state and request.
//!
//! The viewer:
//! - [`config`]: the window configuration and its text form;
//! - [`input`], [`controller`], [`camera`], [`session`]: the controls;
//! - [`menu`]: what the menus hand over;
//! - [`math`]: clamping.
pub mod scalar;
pub mod arithmetic;
pub mod vector;
pub mod body;
pub mod force;
pub mod aggregate;
pub mod integrator;
pub mod insertion;
pub mod simulation;
pub mod laws;
pub mod config;
pub mod input;
pub mod controller;
pub mod camera;
pub mod session;
pub mod menu;
pub mod math;
