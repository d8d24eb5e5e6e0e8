//! The reasons for which a declaration is refused.

use vstd::prelude::*;

verus! {

/// Why no macro can be generated for a declaration.
#[derive(Clone, Copy, Debug, PartialEq, Eq, Structural)]
pub enum GenerationError {
    /// The function declares no return type.
    MissingReturnType,
    /// The return type is neither `bool`, nor a tuple, nor a `Result`.
    UnsupportedReturnType,
    /// The return type is a `Result` of something other than `bool` or a tuple.
    UnsupportedResultType,
    /// The message names elements of a tuple, and the function returns none.
    BindingsOnBoolean,
}

impl GenerationError {
    /// What is wrong with the function, without its name.
    pub open spec fn complaint(self) -> Seq<char> {
        match self {
            GenerationError::MissingReturnType => " has no return type"@,
            GenerationError::UnsupportedReturnType =>
                " must return a bool, tuple or a Result wrapping one of those types"@,
            GenerationError::UnsupportedResultType =>
                " must return a Result of type bool or tuple"@,
            GenerationError::BindingsOnBoolean =>
                " must return a tuple or a Result wrapping a tuple to use message args"@,
        }
    }

    /// The text of the error for the function named `fn_name`.
    pub open spec fn text(self, fn_name: Seq<char>) -> Seq<char> {
        fn_name + self.complaint()
    }

    /// Writes the error for the function named `fn_name`: the name, then what
    /// is wrong with the function.
    pub fn message(&self, fn_name: &str) -> (text: String)
        ensures
            text@ == self.text(fn_name@),
    {
        let complaint = match self {
            GenerationError::MissingReturnType => " has no return type",
            GenerationError::UnsupportedReturnType =>
                " must return a bool, tuple or a Result wrapping one of those types",
            GenerationError::UnsupportedResultType => " must return a Result of type bool or tuple",
            GenerationError::BindingsOnBoolean =>
                " must return a tuple or a Result wrapping a tuple to use message args",
        };
        String::from_str(fn_name).concat(complaint)
    }
}

} // verus!
