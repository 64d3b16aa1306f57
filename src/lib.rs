//! Decoding of variable-length IL operand lists.
//!
//! An IL instruction node holds at most four operand words and one
//! continuation slot; longer lists continue in further nodes of the same
//! table. This crate turns such a chain back into one flat, exact-length,
//! lazily produced sequence of words, and reinterprets that sequence as
//! word pairs, sub-expressions, variables or SSA variables.

pub mod buffer;
pub mod function;
pub mod operand_iter;
pub mod variable;
pub mod views;
pub mod table;

pub use buffer::OperandIterInner;
pub use function::ILFunction;
pub use operand_iter::{OperandError, OperandIter};
pub use table::{ILNode, InstructionTable};
pub use variable::{SSAVariable, Variable};
pub use views::{OperandExprIter, OperandPairIter, OperandSSAVarIter, OperandVarIter};
