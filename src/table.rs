//! An instruction table held in memory: a flat arena of tagged nodes.

use vstd::prelude::*;
use crate::function::ILFunction;

verus! {

/// One slot of an instruction table: an operation tag and five operand words.
#[derive(Clone, Copy, Debug, PartialEq, Eq)]
pub struct ILNode {
    pub operation: u32,
    pub operands: [u64; 5],
}

/// An instruction table whose nodes are addressed by their position.
///
/// Nodes tagged `storage_operation` are raw operand storage: they continue
/// the operand lists of other nodes.
pub struct InstructionTable {
    storage_operation: u32,
    nodes: Vec<ILNode>,
}

impl InstructionTable {
    /// The tag that marks a node as raw operand storage.
    pub closed spec fn spec_storage_operation(&self) -> u32 {
        self.storage_operation
    }

    /// The nodes of the table, by index.
    pub closed spec fn spec_nodes(&self) -> Seq<ILNode> {
        self.nodes@
    }

    /// A table of `nodes`, where nodes tagged `storage_operation` hold
    /// operand words only.
    pub fn new(storage_operation: u32, nodes: Vec<ILNode>) -> (r: Self)
        ensures
            r.spec_storage_operation() == storage_operation,
            r.spec_nodes() == nodes@,
    {
        InstructionTable { storage_operation, nodes }
    }

    /// The number of nodes.
    pub fn len(&self) -> (r: usize)
        ensures
            r == self.spec_nodes().len(),
    {
        self.nodes.len()
    }

    /// The node at `index`, if the table has one there.
    pub fn get(&self, index: u64) -> (r: Option<ILNode>)
        ensures
            r == self.spec_instruction(index),
    {
        if index < self.nodes.len() as u64 {
            Some(self.nodes[index as usize])
        } else {
            None
        }
    }
}

impl ILFunction for InstructionTable {
    type Instruction = Option<ILNode>;

    open spec fn spec_operands(&self, index: u64) -> Option<[u64; 5]> {
        if index < self.spec_nodes().len() && self.spec_nodes()[index as int].operation
            == self.spec_storage_operation() {
            Some(self.spec_nodes()[index as int].operands)
        } else {
            None
        }
    }

    open spec fn spec_instruction(&self, index: u64) -> Option<ILNode> {
        if index < self.spec_nodes().len() {
            Some(self.spec_nodes()[index as int])
        } else {
            None
        }
    }

    fn il_instruction_from_index(&self, index: u64) -> (r: Option<ILNode>) {
        self.get(index)
    }

    fn operands_from_index(&self, index: u64) -> (r: Option<[u64; 5]>) {
        match self.get(index) {
            Some(node) => if node.operation == self.storage_operation {
                Some(node.operands)
            } else {
                None
            },
            None => None,
        }
    }
}

} // verus!
