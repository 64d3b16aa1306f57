//! The instruction store that operand lists are read from, and the
//! mathematical meaning of a chain of operand groups.

use vstd::prelude::*;

verus! {

/// An IL function that owns an instruction table.
///
/// Implemented once per IL dialect; the index type of a dialect is fixed by
/// its implementation, so indices of one table are never read from another.
pub trait ILFunction {
    /// The decoded instruction that an expression index resolves to.
    type Instruction;

    /// The five operand words stored at `index`, or `None` when the node
    /// at `index` is not tagged as raw operand storage.
    spec fn spec_operands(&self, index: u64) -> Option<[u64; 5]>;

    /// The instruction that `index` resolves to.
    spec fn spec_instruction(&self, index: u64) -> Self::Instruction;

    /// Resolves an expression index to its instruction.
    fn il_instruction_from_index(&self, index: u64) -> (r: Self::Instruction)
        ensures
            r == self.spec_instruction(index),
    ;

    /// Reads the raw operand group at `index`, checking that the node there
    /// carries the tag reserved for operand storage.
    fn operands_from_index(&self, index: u64) -> (r: Option<[u64; 5]>)
        ensures
            r == self.spec_operands(index),
    ;
}

/// The words that the chain starting at `index` yields for a list of
/// `count` words, up to the first group whose tag is wrong.
pub open spec fn chain_words<F: ILFunction>(f: &F, index: u64, count: nat) -> Seq<u64>
    decreases count,
{
    if count == 0 {
        Seq::empty()
    } else {
        match f.spec_operands(index) {
            None => Seq::empty(),
            Some(group) => if count > 4 {
                group@.subrange(0, 4) + chain_words(f, group[4], (count - 4) as nat)
            } else {
                group@.subrange(0, count as int)
            },
        }
    }
}

/// Whether every group that a list of `count` words starting at `index`
/// reads is tagged as operand storage.
pub open spec fn chain_intact<F: ILFunction>(f: &F, index: u64, count: nat) -> bool
    decreases count,
{
    if count == 0 {
        true
    } else {
        match f.spec_operands(index) {
            None => false,
            Some(group) => count <= 4 || chain_intact(f, group[4], (count - 4) as nat),
        }
    }
}

/// An intact chain yields exactly as many words as the list declares;
/// a broken one yields fewer, so decoding it cannot end as if the list
/// were complete.
pub proof fn lemma_chain_len<F: ILFunction>(f: &F, index: u64, count: nat)
    ensures
        chain_intact(f, index, count) <==> chain_words(f, index, count).len() == count,
        chain_words(f, index, count).len() <= count,
    decreases count,
{
    if count > 0 {
        match f.spec_operands(index) {
            None => {},
            Some(group) => {
                if count > 4 {
                    lemma_chain_len(f, group[4], (count - 4) as nat);
                }
            },
        }
    }
}

} // verus!
