//! The operations the engine replays.
//!
//! An operation is a pure function from an input buffer to an output
//! buffer. Determinism is what gives the dual-timeline diff its meaning:
//! two isolated replays of the same operation on the same immutable input
//! must produce byte-identical results, so any divergence the executor
//! records points at hidden state, not at the operation itself.

use vstd::prelude::*;

verus! {

/// A logical operation, replayable across isolated timelines.
pub enum Operation {
    /// Hands the input back unchanged.
    Identity,
    /// Hands back a fixed buffer, whatever the input holds.
    Constant(Vec<u8>),
    /// Flips every bit of the input.
    Invert,
}

impl Operation {
    /// What the operation produces on a given input.
    pub open spec fn output_of(self, input: Seq<u8>) -> Seq<u8> {
        match self {
            Operation::Identity => input,
            Operation::Constant(bytes) => bytes@,
            Operation::Invert => Seq::new(input.len(), |i: int| !input[i]),
        }
    }

    /// The tag written to a scratch trail when the operation runs.
    pub open spec fn tag(self) -> u8 {
        match self {
            Operation::Identity => 1,
            Operation::Constant(_) => 2,
            Operation::Invert => 3,
        }
    }

    /// The operation's trail identifier.
    pub fn id(&self) -> (r: u8)
        ensures
            r == self.tag(),
    {
        match self {
            Operation::Identity => 1,
            Operation::Constant(_) => 2,
            Operation::Invert => 3,
        }
    }

    /// Runs the operation on an input buffer, reading nothing else.
    pub fn run(&self, input: &Vec<u8>) -> (out: Vec<u8>)
        ensures
            out@ == self.output_of(input@),
    {
        match self {
            Operation::Identity => copy_bytes(input),
            Operation::Constant(bytes) => copy_bytes(bytes),
            Operation::Invert => {
                let mut out: Vec<u8> = Vec::new();
                let mut i: usize = 0;
                while i < input.len()
                    invariant
                        0 <= i <= input.len(),
                        out@.len() == i,
                        forall|j: int| 0 <= j < i ==> out@[j] == !input@[j],
                    decreases input.len() - i,
                {
                    out.push(!input[i]);
                    i = i + 1;
                }
                proof {
                    assert(out@ =~= Seq::new(input@.len(), |j: int| !input@[j]));
                }
                out
            },
        }
    }
}

/// A byte-for-byte copy into a fresh buffer.
pub fn copy_bytes(v: &Vec<u8>) -> (out: Vec<u8>)
    ensures
        out@ == v@,
{
    let mut out: Vec<u8> = Vec::new();
    let mut i: usize = 0;
    while i < v.len()
        invariant
            0 <= i <= v.len(),
            out@ =~= v@.take(i as int),
        decreases v.len() - i,
    {
        out.push(v[i]);
        i = i + 1;
    }
    proof {
        assert(out@ =~= v@);
    }
    out
}

} // verus!
