//! Account-constraint failures, shared by the three programs.
use vstd::prelude::*;

verus! {

/// A violated account constraint, as the account validation of an instruction
/// reports it before the instruction's own checks run.
#[derive(Clone, Copy, Debug, PartialEq, Eq, Structural)]
pub enum ConstraintError {
    /// A `has_one` relation between two accounts does not hold.
    HasOne,
    /// An account's address is not the one its seeds derive.
    Seeds,
    /// An account's address is not the one its `address` constraint names.
    Address,
}

impl ConstraintError {
    /// The runtime error code of the violation.
    pub fn code(&self) -> (c: u32)
        ensures
            c == match *self {
                ConstraintError::HasOne => 2001u32,
                ConstraintError::Seeds => 2006u32,
                ConstraintError::Address => 2012u32,
            },
    {
        match self {
            ConstraintError::HasOne => 2001,
            ConstraintError::Seeds => 2006,
            ConstraintError::Address => 2012,
        }
    }
}

/// Why an instruction was rejected: its accounts broke a constraint, or the
/// program's own checks refused it.
#[derive(Clone, Copy, Debug, PartialEq, Eq)]
pub enum Rejection<E> {
    Constraint(ConstraintError),
    Program(E),
}

} // verus!
