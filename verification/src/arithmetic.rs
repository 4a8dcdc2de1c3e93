//! The arithmetic unit.
//!
//! The engine asks a unit supplied by its caller for every operation on real
//! numbers. A unit is any function from an [`Operation`] and two binary64
//! patterns to the pattern of the result. The engine assumes of it only that
//! it accepts every input and that it is a function: the same operation on
//! the same operands always has the same result. That function is the view
//! of the unit, a [`Model`], and every contract of the engine states its
//! result over it; a verified caller that knows what its unit computes can
//! say so with [`Arithmetic::with_model`].
use vstd::prelude::*;
use crate::scalar::ZERO;

verus! {

/// An operation of the arithmetic unit. The unary operations read their
/// first operand only.
#[derive(Clone, Copy, Debug, PartialEq, Eq, Structural)]
pub enum Operation {
    /// First operand plus second.
    Add,
    /// First operand minus second.
    Subtract,
    /// First operand times second.
    Multiply,
    /// First operand divided by second.
    Divide,
    /// Square root of the first operand.
    SquareRoot,
    /// Logarithm to base ten of the first operand.
    Logarithm,
}

/// The mathematical function of an arithmetic unit: what each operation
/// gives for each pair of operands.
#[verifier::ext_equal]
pub struct Model {
    pub outcome: spec_fn(Operation, u64, u64) -> u64,
}

impl Model {
    /// The result of `op` on `a` and `b`.
    pub open spec fn apply(self, op: Operation, a: u64, b: u64) -> u64 {
        (self.outcome)(op, a, b)
    }

    /// `a + b`.
    pub open spec fn sum(self, a: u64, b: u64) -> u64 {
        self.apply(Operation::Add, a, b)
    }

    /// `a - b`.
    pub open spec fn difference(self, a: u64, b: u64) -> u64 {
        self.apply(Operation::Subtract, a, b)
    }

    /// `a * b`.
    pub open spec fn product(self, a: u64, b: u64) -> u64 {
        self.apply(Operation::Multiply, a, b)
    }

    /// `a / b`.
    pub open spec fn quotient(self, a: u64, b: u64) -> u64 {
        self.apply(Operation::Divide, a, b)
    }

    /// The square root of `a`.
    pub open spec fn root(self, a: u64) -> u64 {
        self.apply(Operation::SquareRoot, a, ZERO)
    }

    /// The logarithm of `a` to base ten.
    pub open spec fn logarithm(self, a: u64) -> u64 {
        self.apply(Operation::Logarithm, a, ZERO)
    }
}

/// An arithmetic unit: the function `unit`, called for every operation, and
/// the mathematical function that it computes.
pub struct Arithmetic<F: Fn(Operation, u64, u64) -> u64> {
    unit: F,
    model: Ghost<Model>,
}

impl<F: Fn(Operation, u64, u64) -> u64> Arithmetic<F> {
    /// The mathematical function that the unit computes.
    pub closed spec fn view(&self) -> Model {
        self.model@
    }

    /// The function that this unit calls.
    pub closed spec fn unit(&self) -> F {
        self.unit
    }

    /// The unit accepts every input, and whatever it returns for an input is
    /// what its mathematical function gives for it.
    #[verifier::type_invariant]
    spec fn wf(&self) -> bool {
        &&& forall|op: Operation, a: u64, b: u64| #[trigger] call_requires(self.unit, (op, a, b))
        &&& forall|op: Operation, a: u64, b: u64, r: u64| #[trigger]
            call_ensures(self.unit, (op, a, b), r) ==> r == self.model@.apply(op, a, b)
    }

    /// Wraps a function as an arithmetic unit. The function must accept every
    /// input and return the same result whenever it is given the same input;
    /// the mathematical function of the unit then gives, for each input,
    /// whatever the function returns for it. A verified caller learns from
    /// that what an operation it has asked for gives; one that wants to know
    /// the mathematical function on every input names it with `with_model`.
    pub fn new(unit: F) -> (arithmetic: Self)
        requires
            forall|op: Operation, a: u64, b: u64| #[trigger] call_requires(unit, (op, a, b)),
            forall|op: Operation, a: u64, b: u64, r1: u64, r2: u64|
                #[trigger] call_ensures(unit, (op, a, b), r1) && #[trigger] call_ensures(
                    unit,
                    (op, a, b),
                    r2,
                ) ==> r1 == r2,
        ensures
            arithmetic.unit() == unit,
            forall|op: Operation, a: u64, b: u64, r: u64| #[trigger]
                call_ensures(unit, (op, a, b), r) ==> r == arithmetic@.apply(op, a, b),
    {
        Arithmetic {
            unit,
            model: Ghost(
                Model {
                    outcome: |op: Operation, a: u64, b: u64|
                        choose|r: u64| call_ensures(unit, (op, a, b), r),
                },
            ),
        }
    }

    /// Wraps a function as an arithmetic unit, given the mathematical
    /// function that it computes. The function must accept every input and
    /// return nothing but what `model` gives for it.
    pub fn with_model(unit: F, Ghost(model): Ghost<Model>) -> (arithmetic: Self)
        requires
            forall|op: Operation, a: u64, b: u64| #[trigger] call_requires(unit, (op, a, b)),
            forall|op: Operation, a: u64, b: u64, r: u64| #[trigger]
                call_ensures(unit, (op, a, b), r) ==> r == model.apply(op, a, b),
        ensures
            arithmetic.unit() == unit,
            arithmetic@ == model,
    {
        Arithmetic { unit, model: Ghost(model) }
    }

    /// Asks the unit for one operation: the result is what the unit returned
    /// for it, which is what its mathematical function gives.
    pub fn apply(&self, op: Operation, a: u64, b: u64) -> (r: u64)
        ensures
            r == self@.apply(op, a, b),
            call_ensures(self.unit(), (op, a, b), r),
    {
        proof {
            use_type_invariant(self);
        }
        (self.unit)(op, a, b)
    }

    /// `a + b`.
    pub fn plus(&self, a: u64, b: u64) -> (r: u64)
        ensures
            r == self@.sum(a, b),
            call_ensures(self.unit(), (Operation::Add, a, b), r),
    {
        self.apply(Operation::Add, a, b)
    }

    /// `a - b`.
    pub fn minus(&self, a: u64, b: u64) -> (r: u64)
        ensures
            r == self@.difference(a, b),
            call_ensures(self.unit(), (Operation::Subtract, a, b), r),
    {
        self.apply(Operation::Subtract, a, b)
    }

    /// `a * b`.
    pub fn times(&self, a: u64, b: u64) -> (r: u64)
        ensures
            r == self@.product(a, b),
            call_ensures(self.unit(), (Operation::Multiply, a, b), r),
    {
        self.apply(Operation::Multiply, a, b)
    }

    /// `a / b`.
    pub fn over(&self, a: u64, b: u64) -> (r: u64)
        ensures
            r == self@.quotient(a, b),
            call_ensures(self.unit(), (Operation::Divide, a, b), r),
    {
        self.apply(Operation::Divide, a, b)
    }

    /// The square root of `a`.
    pub fn sqrt(&self, a: u64) -> (r: u64)
        ensures
            r == self@.root(a),
            call_ensures(self.unit(), (Operation::SquareRoot, a, ZERO), r),
    {
        self.apply(Operation::SquareRoot, a, ZERO)
    }

    /// The logarithm of `a` to base ten.
    pub fn log10(&self, a: u64) -> (r: u64)
        ensures
            r == self@.logarithm(a),
            call_ensures(self.unit(), (Operation::Logarithm, a, ZERO), r),
    {
        self.apply(Operation::Logarithm, a, ZERO)
    }
}

} // verus!
