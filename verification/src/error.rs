use vstd::prelude::*;

verus! {

/// Why an operation of the bridge failed.
#[derive(Clone, Debug, PartialEq, Eq)]
pub enum BridgeError {
    /// The lock on the shared connection could not be obtained cleanly: an
    /// earlier holder ended abnormally. The text is the lock's own.
    LockFailure(String),
    /// The engine rejected the statement, or a record did not have the shape
    /// the operation relies on. The text is the engine's own where the engine
    /// reported the failure.
    SqlFailure(String),
    /// A name that was to be spliced into a statement is not a plain
    /// identifier. The text is the name as it was given.
    InvalidIdentifier(String),
}

/// What [`BridgeError::message`] puts before a rejected identifier.
pub open spec fn invalid_identifier_prefix() -> Seq<char> {
    "invalid identifier: "@
}

impl BridgeError {
    /// The single line of text that stands for this error at a boundary that
    /// carries no structure.
    pub open spec fn message_text(self) -> Seq<char> {
        match self {
            BridgeError::LockFailure(text) => text@,
            BridgeError::SqlFailure(text) => text@,
            BridgeError::InvalidIdentifier(name) => invalid_identifier_prefix() + name@,
        }
    }

    /// Collapses the error into one line of text.
    pub fn message(&self) -> (s: String)
        ensures
            s@ == self.message_text(),
    {
        match self {
            BridgeError::LockFailure(text) => text.clone(),
            BridgeError::SqlFailure(text) => text.clone(),
            BridgeError::InvalidIdentifier(name) => {
                let mut s = String::from_str("invalid identifier: ");
                s.append(name.as_str());
                s
            },
        }
    }
}

} // verus!
