//! The failures that the machine reports to its host.

use vstd::prelude::*;

verus! {

/// The program image does not fit between the load address and the end of
/// memory. Nothing was written.
#[derive(Clone, Copy, Debug, PartialEq, Eq, Structural)]
pub struct RomTooLarge;

/// The ways in which a single instruction can fail. The machine is left as it
/// was before the instruction, so the host may halt, skip or carry on.
#[derive(Clone, Copy, Debug, PartialEq, Eq, Structural)]
pub enum ExecutionError {
    /// A call was made while all sixteen stack entries were in use.
    StackOverflow,
    /// A return was made while the stack was empty.
    StackUnderflow,
    /// The fetched word matches no instruction of its family.
    InvalidOpcode,
}

impl RomTooLarge {
    /// A human-readable message for the error.
    pub fn message(&self) -> (text: String)
        ensures
            text@ == "program image exceeds available memory"@,
    {
        "program image exceeds available memory".to_string()
    }
}

impl ExecutionError {
    /// The text shown for each error.
    pub open spec fn message_spec(self) -> Seq<char> {
        match self {
            ExecutionError::StackOverflow => "call with a full stack"@,
            ExecutionError::StackUnderflow => "return with an empty stack"@,
            ExecutionError::InvalidOpcode => "invalid opcode"@,
        }
    }

    /// A human-readable message for the error.
    pub fn message(&self) -> (text: String)
        ensures
            text@ == self.message_spec(),
    {
        match self {
            ExecutionError::StackOverflow => "call with a full stack".to_string(),
            ExecutionError::StackUnderflow => "return with an empty stack".to_string(),
            ExecutionError::InvalidOpcode => "invalid opcode".to_string(),
        }
    }
}

} // verus!
