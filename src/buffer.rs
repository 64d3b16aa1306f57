//! A fixed-size buffer of at most four words, drained front to back.

use vstd::prelude::*;

verus! {

/// The words of one fetched operand group that have not been handed out yet.
///
/// The live words are `arr[idx..4]`, oldest first.
pub struct OperandIterInner {
    arr: [u64; 4],
    idx: usize,
}

impl View for OperandIterInner {
    type V = Seq<u64>;

    closed spec fn view(&self) -> Seq<u64> {
        self.arr@.subrange(self.idx as int, 4)
    }
}

impl OperandIterInner {
    /// The buffer's cursor never runs past the end of its array.
    pub closed spec fn wf(&self) -> bool {
        self.idx <= 4
    }

    /// A buffer that holds the words of `slice`, in order.
    pub fn from_slice(slice: &[u64]) -> (r: Self)
        requires
            slice@.len() <= 4,
        ensures
            r.wf(),
            r@ == slice@,
    {
        let n: usize = slice.len();
        let idx: usize = 4 - n;
        let mut arr: [u64; 4] = [0; 4];
        let mut i: usize = 0;
        while i < n
            invariant
                n == slice@.len(),
                n <= 4,
                idx == 4 - n,
                i <= n,
                forall|k: int| 0 <= k < i ==> arr@[idx + k] == slice@[k],
            decreases n - i,
        {
            arr[idx + i] = slice[i];
            i += 1;
        }
        let r = OperandIterInner { arr, idx };
        assert(r@ =~= slice@);
        r
    }

    /// A buffer that holds nothing.
    pub fn empty() -> (r: Self)
        ensures
            r.wf(),
            r@ == Seq::<u64>::empty(),
    {
        let r = OperandIterInner { arr: [0; 4], idx: 4 };
        assert(r@ =~= Seq::<u64>::empty());
        r
    }

    /// Hands out the oldest word still held, if any.
    pub fn next(&mut self) -> (r: Option<u64>)
        requires
            old(self).wf(),
        ensures
            final(self).wf(),
            old(self)@.len() == 0 ==> r.is_none() && final(self)@ == old(self)@,
            old(self)@.len() > 0 ==> r == Some(old(self)@[0]) && final(self)@ == old(self)@.drop_first(),
    {
        if self.idx < 4 {
            let val = self.arr[self.idx];
            self.idx += 1;
            proof {
                assert(self@ =~= old(self)@.drop_first());
            }
            Some(val)
        } else {
            None
        }
    }

    /// The number of words still held.
    pub fn len(&self) -> (r: usize)
        requires
            self.wf(),
        ensures
            r == self@.len(),
    {
        4 - self.idx
    }
}

} // verus!
