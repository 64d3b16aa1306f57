//! Variables as they appear in operand lists.

use vstd::prelude::*;

verus! {

/// A variable, carried as the identifier word the engine encodes it in
/// (its storage class and slot packed into 64 bits).
#[derive(Clone, Copy, Debug, PartialEq, Eq, Hash, Structural)]
pub struct Variable {
    pub identifier: u64,
}

impl Variable {
    /// The variable that the identifier word `identifier` stands for.
    pub fn from_identifier(identifier: u64) -> (r: Self)
        ensures
            r.identifier == identifier,
    {
        Variable { identifier }
    }
}

/// A variable together with the version of its definition in SSA form.
#[derive(Clone, Copy, Debug, PartialEq, Eq, Hash, Structural)]
pub struct SSAVariable {
    pub variable: Variable,
    pub version: u64,
}

impl SSAVariable {
    pub fn new(variable: Variable, version: u64) -> (r: Self)
        ensures
            r.variable == variable,
            r.version == version,
    {
        SSAVariable { variable, version }
    }
}

} // verus!
