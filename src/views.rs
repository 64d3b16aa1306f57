//! Typed views over an operand word stream: word pairs, sub-expressions,
//! variables and SSA variables. Each view owns the stream it reads.

use vstd::prelude::*;
use crate::function::ILFunction;
use crate::operand_iter::{OperandError, OperandIter};
use crate::variable::{SSAVariable, Variable};

verus! {

/// The words `s` read two at a time; a last unpaired word is dropped.
pub open spec fn pairs_of(s: Seq<u64>) -> Seq<(u64, u64)> {
    Seq::new(s.len() / 2, |i: int| (s[2 * i], s[2 * i + 1]))
}

/// The words `s` read as variable identifiers.
pub open spec fn vars_of(s: Seq<u64>) -> Seq<Variable> {
    s.map_values(|w: u64| Variable { identifier: w })
}

/// The words `s` read as (identifier, version) pairs of SSA variables.
pub open spec fn ssa_vars_of(s: Seq<u64>) -> Seq<SSAVariable> {
    pairs_of(s).map_values(
        |p: (u64, u64)| SSAVariable { variable: Variable { identifier: p.0 }, version: p.1 },
    )
}

impl<'a, F: ILFunction> OperandIter<'a, F> {
    /// The stream read two words at a time. Fails when the list's length
    /// is odd.
    pub fn pairs(self) -> (r: Result<OperandPairIter<'a, F>, OperandError>)
        requires
            self.wf(),
        ensures
            self.spec_len() % 2 == 0 <==> r is Ok,
            r is Ok ==> r->Ok_0.wf() && r->Ok_0.stream() == self,
            r is Err ==> r == Err::<OperandPairIter<'a, F>, OperandError>(
                OperandError::OddLength(self.spec_len() as usize),
            ),
    {
        let n = self.len();
        if n % 2 == 0 {
            Ok(OperandPairIter(self))
        } else {
            Err(OperandError::OddLength(n))
        }
    }

    /// The stream read as sub-expression indices of the same function.
    pub fn exprs(self) -> (r: OperandExprIter<'a, F>)
        requires
            self.wf(),
        ensures
            r.wf(),
            r.stream() == self,
    {
        OperandExprIter(self)
    }

    /// The stream read as variable identifiers.
    pub fn vars(self) -> (r: OperandVarIter<'a, F>)
        requires
            self.wf(),
        ensures
            r.wf(),
            r.stream() == self,
    {
        OperandVarIter(self)
    }

    /// The stream read as SSA variables, two words each. Fails when the
    /// list's length is odd.
    pub fn ssa_vars(self) -> (r: Result<OperandSSAVarIter<'a, F>, OperandError>)
        requires
            self.wf(),
        ensures
            self.spec_len() % 2 == 0 <==> r is Ok,
            r is Ok ==> r->Ok_0.wf() && r->Ok_0.stream() == self,
            r is Err ==> r == Err::<OperandSSAVarIter<'a, F>, OperandError>(
                OperandError::OddLength(self.spec_len() as usize),
            ),
    {
        match self.pairs() {
            Ok(p) => Ok(OperandSSAVarIter(p)),
            Err(e) => Err(e),
        }
    }
}

/// Pairs of consecutive words of a stream of even length.
pub struct OperandPairIter<'a, F: ILFunction>(OperandIter<'a, F>);

impl<'a, F: ILFunction> OperandPairIter<'a, F> {
    /// The stream that is read.
    pub closed spec fn stream(&self) -> OperandIter<'a, F> {
        self.0
    }

    /// The stream is even, or a pair was cut in two by a broken chain.
    pub closed spec fn wf(&self) -> bool {
        &&& self.0.wf()
        &&& (self.0.spec_len() % 2 == 0 || (self.0.pending().len() == 0 && self.0.spec_len() > 0))
    }

    /// The pairs that are still to come.
    pub open spec fn pending(&self) -> Seq<(u64, u64)> {
        pairs_of(self.stream().pending())
    }

    /// The number of pairs still to come.
    pub fn len(&self) -> (r: usize)
        requires
            self.wf(),
        ensures
            r == self.stream().spec_len() / 2,
    {
        self.0.len() / 2
    }

    /// Hands out the next two words. `Ok(None)` once the stream is used up,
    /// on every call; an error when the chain breaks before both words.
    pub fn next(&mut self) -> (r: Result<Option<(u64, u64)>, OperandError>)
        requires
            old(self).wf(),
        ensures
            final(self).wf(),
            final(self).stream().store() == old(self).stream().store(),
            r is Ok && r->Ok_0 is Some <==> old(self).stream().pending().len() >= 2,
            r == Ok::<Option<(u64, u64)>, OperandError>(None) <==> old(self).stream().spec_len() == 0,
            r is Ok && r->Ok_0 is Some ==> {
                &&& r->Ok_0->Some_0 == old(self).pending()[0]
                &&& final(self).stream().pending() == old(self).stream().pending().subrange(2, old(self).stream().pending().len() as int)
                &&& final(self).pending() == old(self).pending().drop_first()
                &&& final(self).stream().spec_len() == old(self).stream().spec_len() - 2
            },
            r is Ok && r->Ok_0 is None ==> *final(self) == *old(self),
            r is Err ==> r->Err_0 is BrokenChain,
    {
        proof {
            self.0.lemma_pending_len();
        }
        let ghost s0 = self.0.pending();
        let first = match self.0.next() {
            Err(e) => return Err(e),
            Ok(None) => return Ok(None),
            Ok(Some(w)) => w,
        };
        proof {
            self.0.lemma_pending_len();
        }
        let second = match self.0.next() {
            Err(e) => return Err(e),
            Ok(None) => return Ok(None),
            Ok(Some(w)) => w,
        };
        proof {
            assert(self.0.pending() =~= s0.subrange(2, s0.len() as int));
            assert(pairs_of(self.0.pending()) =~= pairs_of(s0).drop_first());
        }
        Ok(Some((first, second)))
    }
}

/// The instructions that the words of a stream index.
pub struct OperandExprIter<'a, F: ILFunction>(OperandIter<'a, F>);

impl<'a, F: ILFunction> OperandExprIter<'a, F> {
    /// The stream that is read.
    pub closed spec fn stream(&self) -> OperandIter<'a, F> {
        self.0
    }

    pub closed spec fn wf(&self) -> bool {
        self.0.wf()
    }

    /// The number of instructions still to come.
    pub fn len(&self) -> (r: usize)
        requires
            self.wf(),
        ensures
            r == self.stream().spec_len(),
    {
        self.0.len()
    }

    /// Resolves the next word to its instruction in the stream's function.
    pub fn next(&mut self) -> (r: Result<Option<F::Instruction>, OperandError>)
        requires
            old(self).wf(),
        ensures
            final(self).wf(),
            final(self).stream().store() == old(self).stream().store(),
            r is Ok && r->Ok_0 is Some <==> old(self).stream().pending().len() > 0,
            r is Ok && r->Ok_0 is None <==> old(self).stream().spec_len() == 0,
            r is Ok && r->Ok_0 is Some ==> {
                &&& r->Ok_0->Some_0 == old(self).stream().store().spec_instruction(
                    old(self).stream().pending()[0],
                )
                &&& final(self).stream().pending() == old(self).stream().pending().drop_first()
                &&& final(self).stream().spec_len() == old(self).stream().spec_len() - 1
            },
            !(r is Ok && r->Ok_0 is Some) ==> *final(self) == *old(self),
            r is Err ==> r->Err_0 is BrokenChain,
    {
        match self.0.next() {
            Ok(Some(w)) => Ok(Some(self.0.function().il_instruction_from_index(w))),
            Ok(None) => Ok(None),
            Err(e) => Err(e),
        }
    }
}

/// The variables whose identifiers are the words of a stream.
pub struct OperandVarIter<'a, F: ILFunction>(OperandIter<'a, F>);

impl<'a, F: ILFunction> OperandVarIter<'a, F> {
    /// The stream that is read.
    pub closed spec fn stream(&self) -> OperandIter<'a, F> {
        self.0
    }

    pub closed spec fn wf(&self) -> bool {
        self.0.wf()
    }

    /// The variables still to come.
    pub open spec fn pending(&self) -> Seq<Variable> {
        vars_of(self.stream().pending())
    }

    /// The number of variables still to come.
    pub fn len(&self) -> (r: usize)
        requires
            self.wf(),
        ensures
            r == self.stream().spec_len(),
    {
        self.0.len()
    }

    /// Decodes the next word as a variable identifier.
    pub fn next(&mut self) -> (r: Result<Option<Variable>, OperandError>)
        requires
            old(self).wf(),
        ensures
            final(self).wf(),
            final(self).stream().store() == old(self).stream().store(),
            r is Ok && r->Ok_0 is Some <==> old(self).stream().pending().len() > 0,
            r is Ok && r->Ok_0 is None <==> old(self).stream().spec_len() == 0,
            r is Ok && r->Ok_0 is Some ==> {
                &&& r->Ok_0->Some_0 == old(self).pending()[0]
                &&& final(self).pending() == old(self).pending().drop_first()
                &&& final(self).stream().spec_len() == old(self).stream().spec_len() - 1
            },
            !(r is Ok && r->Ok_0 is Some) ==> *final(self) == *old(self),
            r is Err ==> r->Err_0 is BrokenChain,
    {
        let ghost s0 = self.0.pending();
        match self.0.next() {
            Ok(Some(w)) => {
                proof {
                    assert(vars_of(self.0.pending()) =~= vars_of(s0).drop_first());
                }
                Ok(Some(Variable::from_identifier(w)))
            },
            Ok(None) => Ok(None),
            Err(e) => Err(e),
        }
    }
}

/// SSA variables read from consecutive (identifier, version) word pairs.
pub struct OperandSSAVarIter<'a, F: ILFunction>(OperandPairIter<'a, F>);

impl<'a, F: ILFunction> OperandSSAVarIter<'a, F> {
    /// The stream that is read.
    pub closed spec fn stream(&self) -> OperandIter<'a, F> {
        self.0.stream()
    }

    pub closed spec fn wf(&self) -> bool {
        self.0.wf()
    }

    /// The SSA variables still to come.
    pub open spec fn pending(&self) -> Seq<SSAVariable> {
        ssa_vars_of(self.stream().pending())
    }

    /// The number of SSA variables still to come.
    pub fn len(&self) -> (r: usize)
        requires
            self.wf(),
        ensures
            r == self.stream().spec_len() / 2,
    {
        self.0.len()
    }

    /// Decodes the next two words as an SSA variable.
    pub fn next(&mut self) -> (r: Result<Option<SSAVariable>, OperandError>)
        requires
            old(self).wf(),
        ensures
            final(self).wf(),
            final(self).stream().store() == old(self).stream().store(),
            r is Ok && r->Ok_0 is Some <==> old(self).stream().pending().len() >= 2,
            r is Ok && r->Ok_0 is None <==> old(self).stream().spec_len() == 0,
            r is Ok && r->Ok_0 is Some ==> {
                &&& r->Ok_0->Some_0 == old(self).pending()[0]
                &&& final(self).pending() == old(self).pending().drop_first()
                &&& final(self).stream().spec_len() == old(self).stream().spec_len() - 2
            },
            r is Ok && r->Ok_0 is None ==> *final(self) == *old(self),
            r is Err ==> r->Err_0 is BrokenChain,
    {
        let ghost s0 = self.0.stream().pending();
        match self.0.next() {
            Ok(Some((id, version))) => {
                proof {
                    assert(ssa_vars_of(self.0.stream().pending()) =~= ssa_vars_of(s0).drop_first());
                }
                Ok(Some(SSAVariable::new(Variable::from_identifier(id), version)))
            },
            Ok(None) => Ok(None),
            Err(e) => Err(e),
        }
    }
}

} // verus!
