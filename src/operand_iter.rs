//! The operand word stream: follows a chain of operand groups and hands out
//! its words one at a time, fetching each group only when it is needed.

use vstd::prelude::*;
use crate::buffer::OperandIterInner;
use crate::function::{chain_intact, chain_words, lemma_chain_len, ILFunction};

verus! {

/// Why an operand list could not be decoded.
#[derive(Clone, Copy, Debug, PartialEq, Eq, Structural)]
pub enum OperandError {
    /// The node at this index should continue the list but is not tagged
    /// as operand storage: the chain and the declared count disagree.
    BrokenChain(u64),
    /// A list of this odd length was asked for in pairs.
    OddLength(usize),
}

/// A lazy, exact-length stream over the operand words of one list.
pub struct OperandIter<'a, F: ILFunction> {
    function: &'a F,
    /// Words of the list not yet fetched from the store.
    remaining: usize,
    /// Index of the next group to fetch, if any word is left to fetch.
    next_iter_idx: Option<u64>,
    /// Words fetched but not yet handed out.
    current_iter: OperandIterInner,
}

impl<'a, F: ILFunction> OperandIter<'a, F> {
    /// The function whose table the list is read from.
    pub closed spec fn store(&self) -> &'a F {
        self.function
    }

    /// The words that the chain still to be fetched will give.
    pub closed spec fn unfetched(&self) -> Seq<u64> {
        match self.next_iter_idx {
            Some(index) => chain_words(self.function, index, self.remaining as nat),
            None => Seq::empty(),
        }
    }

    /// The words that the stream will hand out from here on, in order,
    /// up to the first broken link of the chain.
    pub closed spec fn pending(&self) -> Seq<u64> {
        self.current_iter@ + self.unfetched()
    }

    /// Whether every group still to be fetched is tagged as operand storage.
    pub closed spec fn intact(&self) -> bool {
        match self.next_iter_idx {
            Some(index) => chain_intact(self.function, index, self.remaining as nat),
            None => true,
        }
    }

    /// The function whose table the list is read from.
    pub fn function(&self) -> (r: &'a F)
        ensures
            r == self.store(),
    {
        self.function
    }

    /// The number of words the list still declares: buffered plus unfetched.
    pub closed spec fn spec_len(&self) -> nat {
        (self.current_iter@.len() + self.remaining) as nat
    }

    /// The number of buffered words, in spec form.
    pub closed spec fn spec_buffered(&self) -> nat {
        self.current_iter@.len()
    }

    /// The index of the next group to fetch, in spec form.
    pub closed spec fn spec_next_fetch(&self) -> Option<u64> {
        self.next_iter_idx
    }

    /// A group is left to fetch exactly when words are left to fetch, and
    /// the declared length fits a `usize`.
    pub closed spec fn wf(&self) -> bool {
        &&& self.current_iter.wf()
        &&& (self.next_iter_idx is Some <==> self.remaining > 0)
        &&& self.current_iter@.len() + self.remaining <= usize::MAX
    }

    /// At every step, what the stream will still hand out is never longer
    /// than the length it reports, and is exactly that long when the rest of
    /// the chain is intact.
    pub proof fn lemma_pending_len(&self)
        requires
            self.wf(),
        ensures
            self.pending().len() <= self.spec_len(),
            self.intact() <==> self.pending().len() == self.spec_len(),
    {
        if let Some(index) = self.next_iter_idx {
            lemma_chain_len(self.function, index, self.remaining as nat);
        }
    }

    /// A stream over the `number` words of the list whose first group is
    /// at `idx`. Nothing is fetched yet.
    pub fn new(function: &'a F, idx: usize, number: usize) -> (r: Self)
        ensures
            r.wf(),
            r.store() == function,
            r.spec_len() == number,
            r.spec_buffered() == 0,
            r.pending() == chain_words(function, idx as u64, number as nat),
            r.intact() == chain_intact(function, idx as u64, number as nat),
            r.spec_next_fetch() == (if number > 0 { Some(idx as u64) } else { None::<u64> }),
    {
        // Zero-length lists are finished from the start.
        let next_iter_idx = if number > 0 { Some(idx as u64) } else { None };
        let r = OperandIter {
            function,
            remaining: number,
            next_iter_idx,
            current_iter: OperandIterInner::empty(),
        };
        proof {
            assert(r.pending() =~= chain_words(function, idx as u64, number as nat));
        }
        r
    }

    /// The number of words still to come: those buffered plus those not
    /// yet fetched.
    pub fn len(&self) -> (r: usize)
        requires
            self.wf(),
        ensures
            r == self.spec_len(),
    {
        self.remaining + self.current_iter.len()
    }

    /// The number of words fetched but not yet handed out.
    pub fn buffered(&self) -> (r: usize)
        requires
            self.wf(),
        ensures
            r == self.spec_buffered(),
    {
        self.current_iter.len()
    }

    /// The index of the group that the next fetch will read, if any.
    pub fn next_fetch(&self) -> (r: Option<u64>)
        ensures
            r == self.spec_next_fetch(),
    {
        self.next_iter_idx
    }

    /// Hands out the next word of the list.
    ///
    /// A group is fetched only when no fetched word is left. Once the list
    /// is used up, `Ok(None)` comes back on every call; a group that is not
    /// tagged as operand storage gives `Err(BrokenChain)`, every time.
    pub fn next(&mut self) -> (r: Result<Option<u64>, OperandError>)
        requires
            old(self).wf(),
        ensures
            final(self).wf(),
            final(self).store() == old(self).store(),
            final(self).intact() == old(self).intact(),
            r is Ok && r->Ok_0 is Some <==> old(self).pending().len() > 0,
            r == Ok::<Option<u64>, OperandError>(None) <==> old(self).spec_len() == 0,
            r is Err <==> old(self).pending().len() == 0 && old(self).spec_len() > 0,
            r is Ok && r->Ok_0 is Some ==> {
                &&& r->Ok_0->Some_0 == old(self).pending()[0]
                &&& final(self).pending() == old(self).pending().drop_first()
                &&& final(self).spec_len() == old(self).spec_len() - 1
            },
            !(r is Ok && r->Ok_0 is Some) ==> *final(self) == *old(self),
            old(self).spec_buffered() > 0 ==> final(self).spec_next_fetch() == old(self).spec_next_fetch(),
            old(self).spec_buffered() > 0 ==> final(self).spec_buffered() == old(self).spec_buffered() - 1,
            r is Err ==> r == Err::<Option<u64>, OperandError>(
                OperandError::BrokenChain(old(self).spec_next_fetch()->Some_0),
            ),
    {
        proof {
            self.lemma_pending_len();
        }
        if self.current_iter.len() > 0 {
            let item = self.current_iter.next();
            proof {
                assert(self.pending() =~= old(self).pending().drop_first());
            }
            return Ok(item);
        }
        match self.next_iter_idx {
            None => Ok(None),
            Some(iter_idx) => match self.function.operands_from_index(iter_idx) {
                None => Err(OperandError::BrokenChain(iter_idx)),
                Some(operands) => {
                    let take: usize = if self.remaining > 4 {
                        self.next_iter_idx = Some(operands[4]);
                        4
                    } else {
                        self.next_iter_idx = None;
                        self.remaining
                    };
                    self.remaining = self.remaining - take;
                    let words = vstd::slice::slice_subrange(operands.as_slice(), 0, take);
                    self.current_iter = OperandIterInner::from_slice(words);
                    proof {
                        assert(self.current_iter@ + self.unfetched() =~= old(self).pending());
                    }
                    let item = self.current_iter.next();
                    proof {
                        assert(self.pending() =~= old(self).pending().drop_first());
                    }
                    Ok(item)
                },
            },
        }
    }

    /// Drains the stream and returns every word it hands out, in order.
    ///
    /// Succeeds exactly when the chain is intact, and then returns as many
    /// words as the list declares.
    pub fn collect_words(self) -> (r: Result<Vec<u64>, OperandError>)
        requires
            self.wf(),
        ensures
            r is Ok <==> self.intact(),
            r is Ok ==> r->Ok_0@ == self.pending() && r->Ok_0@.len() == self.spec_len(),
            r is Err ==> r->Err_0 is BrokenChain,
    {
        let ghost words = self.pending();
        let ghost whole = self.intact();
        let ghost total = self.spec_len();
        let mut it = self;
        let mut out: Vec<u64> = Vec::new();
        loop
            invariant
                it.wf(),
                out@ + it.pending() == words,
                it.intact() == whole,
                out@.len() + it.spec_len() == total,
                words == self.pending(),
                whole == self.intact(),
                total == self.spec_len(),
            decreases it.spec_len(),
        {
            proof {
                it.lemma_pending_len();
            }
            match it.next() {
                Ok(Some(w)) => {
                    proof {
                        assert(out@.push(w) + it.pending() =~= words);
                    }
                    out.push(w);
                },
                Ok(None) => {
                    proof {
                        assert(out@ =~= words);
                    }
                    return Ok(out);
                },
                Err(e) => {
                    return Err(e);
                },
            }
        }
    }
}

} // verus!
