use vstd::prelude::*;
use vstd::string::StringExecFns;

verus! {

/// What can go wrong in the life of a query handler.
#[derive(Debug, Clone, PartialEq, Eq)]
pub enum QueryHandleError {
    /// The operation needs a live connection and there is none.
    NotInitialized(String),
    /// The operation is not allowed in the handler's current state.
    InvalidCall(String),
    /// A failure of the backend or the protocol, described by its message.
    Unknown(String),
}

impl QueryHandleError {
    /// The message that the error carries.
    pub open spec fn message(&self) -> Seq<char> {
        match self {
            QueryHandleError::NotInitialized(msg) => msg@,
            QueryHandleError::InvalidCall(msg) => msg@,
            QueryHandleError::Unknown(msg) => msg@,
        }
    }

    /// The words that name the kind of error in its rendering.
    pub open spec fn label(&self) -> Seq<char> {
        match self {
            QueryHandleError::NotInitialized(_) => "Not Initialized: "@,
            QueryHandleError::InvalidCall(_) => "Invalid Call: "@,
            QueryHandleError::Unknown(_) => "Unknown: "@,
        }
    }

    /// The error as a line of text: the kind, a colon and the message.
    pub fn describe(&self) -> (text: String)
        ensures
            text@ == self.label() + self.message(),
    {
        match self {
            QueryHandleError::NotInitialized(msg) => String::from_str("Not Initialized: ").concat(
                msg.as_str(),
            ),
            QueryHandleError::InvalidCall(msg) => String::from_str("Invalid Call: ").concat(
                msg.as_str(),
            ),
            QueryHandleError::Unknown(msg) => String::from_str("Unknown: ").concat(msg.as_str()),
        }
    }
}

} // verus!
