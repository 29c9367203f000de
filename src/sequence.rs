use vstd::prelude::*;
use crate::error::Error;
use crate::value::{Function, Value};

verus! {

/// The outcome of a call: its results, or why it failed.
pub type Outcome = Result<Vec<Value>, Error>;

/// A follow-up that runs on the outcome of the call a sequence is waiting on.
#[derive(Clone, Copy, Debug, PartialEq, Eq, Structural)]
pub enum Continuation {
    /// Turns any outcome into ordinary results: `true` and the results on
    /// success, `false` and the error's value on failure.
    Protect,
}

/// What a sequence does first.
#[derive(Debug)]
pub enum Start {
    /// Nothing to wait for: the outcome is already known.
    Ready(Outcome),
    /// Call this function with these arguments and wait for its outcome.
    Call(Function, Vec<Value>),
}

/// A native computation that may take several steps: a first step, then the
/// continuations, applied in order, each to the outcome of the one before.
#[derive(Debug)]
pub struct Sequence {
    pub start: Start,
    pub continuations: Vec<Continuation>,
}

/// Whether `r` is what protecting `outcome` gives.
pub open spec fn protected(outcome: Outcome, r: Outcome) -> bool {
    match (outcome, r) {
        (Ok(results), Ok(rs)) => rs@ == seq![Value::Boolean(true)] + results@,
        (Err(e), Ok(rs)) => rs@.len() == 2 && rs@[0] == Value::Boolean(false) && e.renders_as(
            rs@[1],
        ),
        (_, Err(_)) => false,
    }
}

impl Continuation {
    /// Whether `r` is what this continuation makes of `outcome`.
    pub open spec fn resumes(self, outcome: Outcome, r: Outcome) -> bool {
        match self {
            Continuation::Protect => protected(outcome, r),
        }
    }

    /// Applies this continuation to the outcome of the call it waited on.
    pub fn resume(self, outcome: Outcome) -> (r: Outcome)
        ensures
            self.resumes(outcome, r),
    {
        match self {
            Continuation::Protect => match outcome {
                Ok(results) => {
                    let mut rs: Vec<Value> = Vec::new();
                    rs.push(Value::Boolean(true));
                    let mut rest = results;
                    rs.append(&mut rest);
                    Ok(rs)
                },
                Err(e) => {
                    let mut rs: Vec<Value> = Vec::new();
                    rs.push(Value::Boolean(false));
                    rs.push(e.to_value());
                    Ok(rs)
                },
            },
        }
    }
}

impl Sequence {
    /// A sequence whose outcome is already known.
    pub fn ready(outcome: Outcome) -> (s: Sequence)
        ensures
            s.start == Start::Ready(outcome),
            s.continuations@.len() == 0,
    {
        Sequence { start: Start::Ready(outcome), continuations: Vec::new() }
    }

    /// A sequence that calls `function` with `args`.
    pub fn call(function: Function, args: Vec<Value>) -> (s: Sequence)
        ensures
            s.start == Start::Call(function, args),
            s.continuations@.len() == 0,
    {
        Sequence { start: Start::Call(function, args), continuations: Vec::new() }
    }

    /// This sequence, with `c` applied to its outcome.
    pub fn and_then(self, c: Continuation) -> (s: Sequence)
        ensures
            s.start == self.start,
            s.continuations@ == self.continuations@.push(c),
    {
        let mut s = self;
        s.continuations.push(c);
        s
    }
}

} // verus!
