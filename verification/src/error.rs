use vstd::prelude::*;

verus! {

/// Why an operation was given up.
#[derive(Debug)]
pub enum Error {
    /// The ledger file is missing, unreadable or malformed, or could not be
    /// written.
    Storage(String),
    /// A path could not be resolved, or a move, a removal or a type query
    /// failed.
    FileOperation(String),
    /// The arguments name nothing to do.
    Arguments(String),
}

impl Error {
    /// The text of the failure, whatever its class.
    pub open spec fn text(self) -> Seq<char> {
        match self {
            Error::Storage(text) => text@,
            Error::FileOperation(text) => text@,
            Error::Arguments(text) => text@,
        }
    }

    /// The message to show to the user.
    pub fn message(&self) -> (text: String)
        ensures
            text@ == self.text(),
    {
        match self {
            Error::Storage(text) => text.clone(),
            Error::FileOperation(text) => text.clone(),
            Error::Arguments(text) => text.clone(),
        }
    }
}

} // verus!
