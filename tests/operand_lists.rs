use il_operands::{
    ILFunction, ILNode, InstructionTable, OperandError, OperandIter, OperandIterInner,
    SSAVariable, Variable,
};

const RAW: u32 = 0;
const OTHER: u32 = 5;

fn filler() -> ILNode {
    ILNode { operation: OTHER, operands: [0; 5] }
}

fn raw(operands: [u64; 5]) -> ILNode {
    ILNode { operation: RAW, operands }
}

/// A table of `size` non-storage nodes with the given slots overwritten.
fn table_with(size: usize, slots: &[(usize, ILNode)]) -> InstructionTable {
    let mut nodes = vec![filler(); size];
    for (i, node) in slots {
        nodes[*i] = *node;
    }
    InstructionTable::new(RAW, nodes)
}

fn next_word<F: ILFunction>(it: &mut OperandIter<'_, F>) -> Option<u64> {
    it.next().expect("chain is intact")
}

#[test]
fn chunk_boundary_follows_continuation_once() {
    let t = table_with(12, &[(10, raw([1, 2, 3, 4, 11])), (11, raw([5, 6, 0, 0, 0]))]);
    let mut it = OperandIter::new(&t, 10, 6);
    assert_eq!(it.len(), 6);
    assert_eq!(it.next_fetch(), Some(10));
    let mut got = Vec::new();
    for k in 0..4u64 {
        let w = next_word(&mut it).unwrap();
        got.push(w);
        // The second group is still unread while words of the first remain.
        assert_eq!(it.next_fetch(), Some(11));
        assert_eq!(it.buffered(), 3 - k as usize);
        assert_eq!(it.len(), 5 - k as usize);
    }
    got.push(next_word(&mut it).unwrap());
    // Fetched exactly once, after four words; nothing more to follow.
    assert_eq!(it.next_fetch(), None);
    assert_eq!(it.buffered(), 1);
    got.push(next_word(&mut it).unwrap());
    assert_eq!(got, vec![1, 2, 3, 4, 5, 6]);
    assert_eq!(it.len(), 0);
    assert_eq!(it.next(), Ok(None));
}

#[test]
fn single_chunk_never_follows_continuation() {
    let t = table_with(21, &[(20, raw([7, 8, 9, 0, 3]))]);
    let mut it = OperandIter::new(&t, 20, 3);
    assert_eq!(next_word(&mut it), Some(7));
    assert_eq!(it.next_fetch(), None);
    assert_eq!(it.buffered(), 2);
    assert_eq!(next_word(&mut it), Some(8));
    assert_eq!(next_word(&mut it), Some(9));
    assert_eq!(it.next(), Ok(None));
    assert_eq!(OperandIter::new(&t, 20, 3).collect_words(), Ok(vec![7, 8, 9]));
}

#[test]
fn zero_length_fetches_nothing() {
    // Index 0 is not operand storage: any fetch would fail.
    let t = table_with(1, &[]);
    let mut it = OperandIter::new(&t, 0, 0);
    assert_eq!(it.len(), 0);
    assert_eq!(it.next_fetch(), None);
    assert_eq!(it.next(), Ok(None));
    assert_eq!(it.next(), Ok(None));
    assert_eq!(OperandIter::new(&t, 0, 0).collect_words(), Ok(vec![]));
}

#[test]
fn exact_length_over_long_chain() {
    let t = table_with(
        8,
        &[
            (2, raw([1, 2, 3, 4, 5])),
            (5, raw([5, 6, 7, 8, 7])),
            (7, raw([9, 10, 11, 12, 3])),
            (3, raw([13, 0, 0, 0, 0])),
        ],
    );
    let mut it = OperandIter::new(&t, 2, 13);
    let mut yielded: usize = 0;
    assert_eq!(it.len(), 13);
    while let Some(w) = next_word(&mut it) {
        yielded += 1;
        assert_eq!(w, yielded as u64);
        assert_eq!(it.len(), 13 - yielded);
    }
    assert_eq!(yielded, 13);
    let all = OperandIter::new(&t, 2, 13).collect_words().unwrap();
    assert_eq!(all, (1..=13).collect::<Vec<u64>>());
}

#[test]
fn exact_length_at_group_multiple() {
    let t = table_with(3, &[(0, raw([1, 2, 3, 4, 1])), (1, raw([5, 6, 7, 8, 2]))]);
    // Eight words fill two groups; the second group's last slot is not followed.
    assert_eq!(OperandIter::new(&t, 0, 8).collect_words(), Ok(vec![1, 2, 3, 4, 5, 6, 7, 8]));
    assert_eq!(OperandIter::new(&t, 0, 4).collect_words(), Ok(vec![1, 2, 3, 4]));
}

#[test]
fn pairs_of_even_list() {
    let t = table_with(1, &[(0, raw([10, 20, 30, 40, 0]))]);
    let mut p = OperandIter::new(&t, 0, 4).pairs().unwrap();
    assert_eq!(p.len(), 2);
    assert_eq!(p.next(), Ok(Some((10, 20))));
    assert_eq!(p.len(), 1);
    assert_eq!(p.next(), Ok(Some((30, 40))));
    assert_eq!(p.len(), 0);
    assert_eq!(p.next(), Ok(None));
    assert_eq!(p.next(), Ok(None));
}

#[test]
fn pairs_of_odd_list_is_refused() {
    let t = table_with(1, &[(0, raw([10, 20, 30, 40, 0]))]);
    assert!(matches!(OperandIter::new(&t, 0, 3).pairs(), Err(OperandError::OddLength(3))));
    assert!(matches!(OperandIter::new(&t, 0, 1).ssa_vars(), Err(OperandError::OddLength(1))));
}

#[test]
fn pairs_across_groups() {
    let t = table_with(2, &[(0, raw([1, 2, 3, 4, 1])), (1, raw([5, 6, 0, 0, 0]))]);
    let mut p = OperandIter::new(&t, 0, 6).pairs().unwrap();
    assert_eq!(p.next(), Ok(Some((1, 2))));
    assert_eq!(p.next(), Ok(Some((3, 4))));
    assert_eq!(p.next(), Ok(Some((5, 6))));
    assert_eq!(p.next(), Ok(None));
}

#[test]
fn variable_view_decodes_words() {
    let t = table_with(1, &[(0, raw([100, 101, 0, 0, 0]))]);
    let mut v = OperandIter::new(&t, 0, 2).vars();
    assert_eq!(v.len(), 2);
    assert_eq!(v.next(), Ok(Some(Variable::from_identifier(100))));
    assert_eq!(v.next(), Ok(Some(Variable { identifier: 101 })));
    assert_eq!(v.len(), 0);
    assert_eq!(v.next(), Ok(None));
    assert_eq!(v.next(), Ok(None));
}

#[test]
fn ssa_view_decodes_pairs() {
    let t = table_with(1, &[(0, raw([100, 0, 100, 1, 0]))]);
    let mut s = OperandIter::new(&t, 0, 4).ssa_vars().unwrap();
    assert_eq!(s.len(), 2);
    let var = Variable::from_identifier(100);
    assert_eq!(s.next(), Ok(Some(SSAVariable::new(var, 0))));
    assert_eq!(s.next(), Ok(Some(SSAVariable { variable: var, version: 1 })));
    assert_eq!(s.next(), Ok(None));
    assert_eq!(s.next(), Ok(None));
}

#[test]
fn expression_view_resolves_indices() {
    let add = ILNode { operation: 9, operands: [1, 2, 0, 0, 0] };
    let t = table_with(4, &[(0, raw([3, 1, 0, 0, 0])), (3, add)]);
    let mut e = OperandIter::new(&t, 0, 2).exprs();
    assert_eq!(e.len(), 2);
    assert_eq!(e.next(), Ok(Some(Some(add))));
    assert_eq!(e.next(), Ok(Some(Some(filler()))));
    assert_eq!(e.len(), 0);
    assert_eq!(e.next(), Ok(None));
    assert_eq!(e.next(), Ok(None));
}

#[test]
fn expression_view_leaves_bad_index_to_store() {
    let t = table_with(1, &[(0, raw([42, 0, 0, 0, 0]))]);
    let mut e = OperandIter::new(&t, 0, 1).exprs();
    assert_eq!(e.next(), Ok(Some(None)));
}

#[test]
fn broken_continuation_is_detected() {
    // Index 11 should continue the list but is an ordinary node.
    let t = table_with(12, &[(10, raw([1, 2, 3, 4, 11]))]);
    let mut it = OperandIter::new(&t, 10, 6);
    for w in 1..=4u64 {
        assert_eq!(it.next(), Ok(Some(w)));
    }
    assert_eq!(it.next(), Err(OperandError::BrokenChain(11)));
    assert_eq!(it.next(), Err(OperandError::BrokenChain(11)));
    assert_eq!(it.len(), 2);
    assert_eq!(
        OperandIter::new(&t, 10, 6).collect_words(),
        Err(OperandError::BrokenChain(11))
    );
}

#[test]
fn continuation_out_of_range_is_detected() {
    let t = table_with(1, &[(0, raw([1, 2, 3, 4, 50]))]);
    assert_eq!(OperandIter::new(&t, 0, 5).collect_words(), Err(OperandError::BrokenChain(50)));
}

#[test]
fn first_group_with_wrong_tag_is_detected() {
    let t = table_with(2, &[]);
    let mut it = OperandIter::new(&t, 1, 2);
    assert_eq!(it.next(), Err(OperandError::BrokenChain(1)));
}

#[test]
fn broken_chain_in_views() {
    let t = table_with(12, &[(10, raw([1, 2, 3, 4, 11]))]);
    let mut p = OperandIter::new(&t, 10, 6).pairs().unwrap();
    assert_eq!(p.next(), Ok(Some((1, 2))));
    assert_eq!(p.next(), Ok(Some((3, 4))));
    assert_eq!(p.next(), Err(OperandError::BrokenChain(11)));
    let mut v = OperandIter::new(&t, 10, 5).vars();
    for _ in 0..4 {
        assert!(matches!(v.next(), Ok(Some(_))));
    }
    assert_eq!(v.next(), Err(OperandError::BrokenChain(11)));
    let mut e = OperandIter::new(&t, 10, 5).exprs();
    for _ in 0..4 {
        assert!(matches!(e.next(), Ok(Some(_))));
    }
    assert_eq!(e.next(), Err(OperandError::BrokenChain(11)));
    let mut s = OperandIter::new(&t, 10, 6).ssa_vars().unwrap();
    assert!(matches!(s.next(), Ok(Some(_))));
    assert!(matches!(s.next(), Ok(Some(_))));
    assert_eq!(s.next(), Err(OperandError::BrokenChain(11)));
}

#[test]
fn store_checks_operation_tag() {
    let t = table_with(3, &[(1, raw([1, 2, 3, 4, 5]))]);
    assert_eq!(t.len(), 3);
    assert_eq!(t.operands_from_index(1), Some([1, 2, 3, 4, 5]));
    assert_eq!(t.operands_from_index(0), None);
    assert_eq!(t.operands_from_index(3), None);
    assert_eq!(t.get(1), Some(raw([1, 2, 3, 4, 5])));
    assert_eq!(t.il_instruction_from_index(7), None);
}

#[test]
fn buffer_hands_out_words_in_order() {
    let mut b = OperandIterInner::from_slice(&[4, 5]);
    assert_eq!(b.len(), 2);
    assert_eq!(b.next(), Some(4));
    assert_eq!(b.next(), Some(5));
    assert_eq!(b.next(), None);
    assert_eq!(b.len(), 0);
    let mut e = OperandIterInner::empty();
    assert_eq!(e.len(), 0);
    assert_eq!(e.next(), None);
}
