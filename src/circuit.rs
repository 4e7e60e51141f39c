//! The circuit for `a * b == c`: two private factors and a public product.
use vstd::prelude::*;
use crate::field::{is_satisfied, product_holds};

verus! {

/// The constraint system `a * b == c`, with the values that a prover knows.
/// `a` and `b` are the witness, `c` the public input. A value may be absent
/// where only the shape of the circuit is needed, as in setup.
#[derive(Clone, Copy, Debug)]
pub struct SimpleCircuit {
    pub a: Option<u32>,
    pub b: Option<u32>,
    pub c: Option<u32>,
}

/// A complete assignment of the circuit's three variables.
#[derive(Clone, Copy, Debug, PartialEq, Eq, Structural)]
pub struct Assignment {
    pub a: u32,
    pub b: u32,
    pub c: u32,
}

/// Why a circuit cannot be proved.
#[derive(Clone, Copy, Debug, PartialEq, Eq, Structural)]
pub enum CircuitError {
    /// A variable has no value.
    AssignmentMissing,
    /// The values do not satisfy `a * b == c`.
    UnsatisfiedConstraint,
}

impl Assignment {
    /// Whether the assignment satisfies the circuit's one constraint.
    pub open spec fn holds(self) -> bool {
        product_holds(self.a as int, self.b as int, self.c as int)
    }

    /// Checks `a * b == c` in the field.
    pub fn is_satisfied(&self) -> (r: bool)
        ensures
            r == self.holds(),
    {
        is_satisfied(self.a, self.b, self.c)
    }
}

impl SimpleCircuit {
    /// Every variable has a value.
    pub open spec fn is_complete(self) -> bool {
        self.a is Some && self.b is Some && self.c is Some
    }

    /// The assignment that a complete circuit holds.
    pub open spec fn assignment_spec(self) -> Assignment
        recommends
            self.is_complete(),
    {
        Assignment { a: self.a->Some_0, b: self.b->Some_0, c: self.c->Some_0 }
    }

    /// The circuit holds values, and they satisfy the constraint.
    pub open spec fn satisfied(self) -> bool {
        self.is_complete() && self.assignment_spec().holds()
    }

    /// A circuit for the statement that `a * b == c`, with all three values.
    pub fn new(a: u32, b: u32, c: u32) -> (r: SimpleCircuit)
        ensures
            r.a == Some(a),
            r.b == Some(b),
            r.c == Some(c),
    {
        SimpleCircuit { a: Some(a), b: Some(b), c: Some(c) }
    }

    /// The same constraint without values: what setup needs.
    pub fn shape(&self) -> (r: SimpleCircuit)
        ensures
            r.a is None,
            r.b is None,
            r.c is None,
    {
        SimpleCircuit { a: None, b: None, c: None }
    }

    /// The values of the three variables, or `AssignmentMissing` when one
    /// has none.
    pub fn assignment(&self) -> (r: Result<Assignment, CircuitError>)
        ensures
            self.is_complete() ==> r == Ok::<Assignment, CircuitError>(self.assignment_spec()),
            !self.is_complete() ==> r == Err::<Assignment, CircuitError>(CircuitError::AssignmentMissing),
    {
        match (self.a, self.b, self.c) {
            (Some(a), Some(b), Some(c)) => Ok(Assignment { a, b, c }),
            _ => Err(CircuitError::AssignmentMissing),
        }
    }

    /// Checks, before proving, that the circuit holds a satisfying
    /// assignment; returns it, or why there is none.
    pub fn check(&self) -> (r: Result<Assignment, CircuitError>)
        ensures
            self.satisfied() ==> r == Ok::<Assignment, CircuitError>(self.assignment_spec()),
            !self.is_complete() ==> r == Err::<Assignment, CircuitError>(CircuitError::AssignmentMissing),
            self.is_complete() && !self.satisfied() ==> r == Err::<Assignment, CircuitError>(
                CircuitError::UnsatisfiedConstraint,
            ),
    {
        let asg = self.assignment()?;
        if asg.is_satisfied() {
            Ok(asg)
        } else {
            Err(CircuitError::UnsatisfiedConstraint)
        }
    }

    /// The public inputs that a verifier is given: the product `c` alone.
    pub fn public_inputs(&self) -> (r: Result<Vec<u32>, CircuitError>)
        ensures
            self.c is Some ==> r is Ok && r->Ok_0@ == seq![self.c->Some_0],
            self.c is None ==> r == Err::<Vec<u32>, CircuitError>(CircuitError::AssignmentMissing),
    {
        match self.c {
            Some(c) => Ok(vec![c]),
            None => Err(CircuitError::AssignmentMissing),
        }
    }
}

} // verus!
