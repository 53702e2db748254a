//! The failures that a calculation can end in.

use vstd::prelude::*;
use vstd::string::*;

verus! {

/// Why no result could be produced.
#[derive(Debug, Clone, Copy, PartialEq, Eq)]
pub enum CalcError {
    /// An input line does not hold a valid integer.
    Parse,
    /// The divisor of a division is zero.
    DivisionByZero,
}

impl CalcError {
    /// The fixed text that describes this failure.
    pub open spec fn message_text(self) -> Seq<char> {
        match self {
            CalcError::Parse => "Error: Invalid number!"@,
            CalcError::DivisionByZero => "Error: Division by zero!"@,
        }
    }

    /// A human-readable description of the failure.
    pub fn message(&self) -> (text: String)
        ensures
            text@ == self.message_text(),
    {
        match self {
            CalcError::Parse => String::from_str("Error: Invalid number!"),
            CalcError::DivisionByZero => String::from_str("Error: Division by zero!"),
        }
    }
}

} // verus!
