//! The validation errors. Each one ends the generation; nothing is emitted.

use vstd::prelude::*;

verus! {

/// Why a function cannot be compiled into a command.
#[derive(Clone, Copy, Debug, PartialEq, Eq, Structural)]
pub enum ValidationError {
    /// The function takes a variable number of arguments, which a command
    /// that stores its arguments by value cannot hold.
    Variadic,
    /// An entity command was asked for, and no parameter has the subject type.
    MissingSubject,
    /// More than one parameter has the subject type.
    AmbiguousSubject,
}

impl ValidationError {
    /// The message of each error.
    pub open spec fn message_text(self) -> Seq<char> {
        match self {
            ValidationError::Variadic => "command cannot be variadic"@,
            ValidationError::MissingSubject => "Entity commands must take in a `Entity` parameter"@,
            ValidationError::AmbiguousSubject => "ambiguous subject parameter"@,
        }
    }

    /// The message to report to the user.
    pub fn message(&self) -> (text: String)
        ensures
            text@ == self.message_text(),
    {
        match self {
            ValidationError::Variadic => String::from_str("command cannot be variadic"),
            ValidationError::MissingSubject => String::from_str(
                "Entity commands must take in a `Entity` parameter",
            ),
            ValidationError::AmbiguousSubject => String::from_str("ambiguous subject parameter"),
        }
    }
}

} // verus!
