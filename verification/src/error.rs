//! The error of the crate's operations.

use vstd::prelude::*;

verus! {

/// Why an operation was refused or failed.
#[derive(Debug)]
pub struct PluginError {
    /// What went wrong, for the user.
    pub message: String,
}

impl View for PluginError {
    type V = Seq<char>;

    open spec fn view(&self) -> Seq<char> {
        self.message@
    }
}

/// A rendered text or an error message, as texts.
pub open spec fn outcome_text(outcome: Result<String, PluginError>) -> Result<
    Seq<char>,
    Seq<char>,
> {
    match outcome {
        Ok(text) => Ok(text@),
        Err(error) => Err(error@),
    }
}

impl PluginError {
    /// The error with the given message.
    pub fn new(message: String) -> (error: Self)
        ensures
            error@ == message@,
    {
        PluginError { message }
    }
}

} // verus!
