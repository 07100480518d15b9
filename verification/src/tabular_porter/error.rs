use vstd::prelude::*;
use vstd::string::StringExecFns;

verus! {

/// What can go wrong when a tabular file is read.
#[derive(Debug, Clone, PartialEq, Eq)]
pub enum TabularPortError {
    /// A cursor was asked for before the data to walk was chosen.
    NotInitialized(String),
    /// A failure of the reader, described by its message.
    Unknown(String),
}

impl TabularPortError {
    /// The message that the error carries.
    pub open spec fn message(&self) -> Seq<char> {
        match self {
            TabularPortError::NotInitialized(msg) => msg@,
            TabularPortError::Unknown(msg) => msg@,
        }
    }

    /// The words that name the kind of error in its rendering.
    pub open spec fn label(&self) -> Seq<char> {
        match self {
            TabularPortError::NotInitialized(_) => "Not Initialized: "@,
            TabularPortError::Unknown(_) => "Unknown: "@,
        }
    }

    /// The error as a line of text: the kind, a colon and the message.
    pub fn describe(&self) -> (text: String)
        ensures
            text@ == self.label() + self.message(),
    {
        match self {
            TabularPortError::NotInitialized(msg) => String::from_str("Not Initialized: ").concat(
                msg.as_str(),
            ),
            TabularPortError::Unknown(msg) => String::from_str("Unknown: ").concat(msg.as_str()),
        }
    }
}

} // verus!
