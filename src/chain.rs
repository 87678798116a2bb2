use vstd::prelude::*;
use crate::error::CastError;
use crate::kind::Kind;
use crate::ops::AppliedTo;
use crate::value::Value;

verus! {

/// The kind reached by walking `steps` from `start`.
pub open spec fn out_kind(start: Kind, steps: Seq<Kind>) -> Kind {
    if steps.len() == 0 {
        start
    } else {
        steps.last()
    }
}

/// `v` carried through each kind of `steps` in turn.
pub open spec fn cast_along(v: Value, steps: Seq<Kind>) -> Value
    decreases steps.len(),
{
    if steps.len() == 0 {
        v
    } else {
        cast_along(v, steps.drop_last()).reinterpret_spec(steps.last())
    }
}

/// A chain of operations from a starting kind.
///
/// It is kept as the walk of kinds that its operations visit: since each
/// operation maps a value to the value of its output kind with the same low
/// bits, that walk decides what the chain does to every value. A chain is
/// only ever extended by operations that apply to its current output kind.
#[derive(Clone, Debug)]
pub struct Bb {
    start: Kind,
    steps: Vec<Kind>,
}

impl View for Bb {
    /// The starting kind, and the output kind of each operation in order.
    type V = (Kind, Seq<Kind>);

    closed spec fn view(&self) -> (Kind, Seq<Kind>) {
        (self.start, self.steps@)
    }
}

impl Bb {
    /// The kind this chain produces.
    pub open spec fn out_spec(&self) -> Kind {
        out_kind(self@.0, self@.1)
    }

    /// The empty chain from `start`: it returns every value as it is.
    pub fn new(start: Kind) -> (r: Bb)
        ensures
            r@.0 == start,
            r@.1 == Seq::<Kind>::empty(),
    {
        Bb { start, steps: Vec::new() }
    }

    /// The kind a value must have to go through this chain.
    pub fn start_kind(&self) -> (r: Kind)
        ensures
            r == self@.0,
    {
        self.start
    }

    /// The kind this chain produces.
    pub fn output_kind(&self) -> (r: Kind)
        ensures
            r == self.out_spec(),
    {
        if self.steps.len() == 0 {
            self.start
        } else {
            self.steps[self.steps.len() - 1]
        }
    }

    /// Number of operations in this chain.
    pub fn len(&self) -> (r: usize)
        ensures
            r == self@.1.len(),
    {
        self.steps.len()
    }

    /// This chain followed by `op`; rejected where `op` does not apply to the
    /// kind this chain produces.
    pub fn append<O: AppliedTo>(self, op: &O) -> (r: Result<Bb, CastError>)
        ensures
            match op.target(self.out_spec()) {
                Some(k) => r is Ok && r->Ok_0@ == (self@.0, self@.1.push(k)),
                None => r == Err::<Bb, CastError>(CastError::InapplicableOperation),
            },
    {
        let out = self.output_kind();
        match op.resolve(out) {
            Some(k) => {
                let mut steps = self.steps;
                steps.push(k);
                Ok(Bb { start: self.start, steps })
            },
            None => Err(CastError::InapplicableOperation),
        }
    }

    /// Applies the operations of this chain to `v` in order. A value of
    /// another kind than the chain's start is rejected.
    pub fn apply(&self, v: Value) -> (r: Result<Value, CastError>)
        ensures
            v.kind() != self@.0 ==> r == Err::<Value, CastError>(CastError::MalformedChain),
            v.kind() == self@.0 ==> r == Ok::<Value, CastError>(cast_along(v, self@.1)),
    {
        if v.kind_of() != self.start {
            return Err(CastError::MalformedChain);
        }
        let mut cur = v;
        let mut i: usize = 0;
        while i < self.steps.len()
            invariant
                i <= self.steps@.len(),
                cur == cast_along(v, self.steps@.take(i as int)),
            decreases self.steps@.len() - i,
        {
            proof {
                assert(self.steps@.take(i + 1).drop_last() =~= self.steps@.take(i as int));
            }
            cur = cur.reinterpret(self.steps[i]);
            i = i + 1;
        }
        proof {
            assert(self.steps@.take(i as int) =~= self.steps@);
        }
        Ok(cur)
    }
}

/// The value a chain yields has the chain's output kind.
pub proof fn lemma_cast_along_kind(v: Value, steps: Seq<Kind>)
    ensures
        cast_along(v, steps).kind() == out_kind(v.kind(), steps),
    decreases steps.len(),
{
    if steps.len() > 0 {
        crate::value::lemma_reinterpret(cast_along(v, steps.drop_last()), steps.last());
    }
}

/// Chains compose: a chain extended by one more step yields what the shorter
/// chain yields, carried on to the new kind.
pub proof fn law_append_composes(v: Value, steps: Seq<Kind>, k: Kind)
    ensures
        cast_along(v, steps.push(k)) == cast_along(v, steps).reinterpret_spec(k),
        out_kind(v.kind(), steps.push(k)) == k,
{
    assert(steps.push(k).drop_last() =~= steps);
}

} // verus!
