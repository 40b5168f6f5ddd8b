//! Errors of the queue and storage layers.

use vstd::prelude::*;

verus! {

/// An error of the service, with the text of the error that caused it.
#[allow(inconsistent_fields)]
#[derive(Debug)]
pub enum Error {
    /// An input/output operation failed.
    IO { source: String },
    /// A database operation failed.
    DB { message: String, source: String },
    /// A message-queue operation failed.
    Queue { message: String, source: String },
    /// Any other failure.
    Generic { message: String, source: Option<String> },
}

impl Error {
    /// The text of the error: `IO`, `Database Error: <message>`,
    /// `Queue Error: <message>` or `Generic Error: <message>`.
    pub fn to_string(&self) -> (s: String)
        ensures
            self is IO ==> s@ == "IO"@,
            self matches Error::DB { message, .. } ==> s@ == "Database Error: "@ + message@,
            self matches Error::Queue { message, .. } ==> s@ == "Queue Error: "@ + message@,
            self matches Error::Generic { message, .. } ==> s@ == "Generic Error: "@ + message@,
    {
        match self {
            Error::IO { .. } => String::from_str("IO"),
            Error::DB { message, .. } => {
                let mut s = String::from_str("Database Error: ");
                s.append(message.as_str());
                s
            },
            Error::Queue { message, .. } => {
                let mut s = String::from_str("Queue Error: ");
                s.append(message.as_str());
                s
            },
            Error::Generic { message, .. } => {
                let mut s = String::from_str("Generic Error: ");
                s.append(message.as_str());
                s
            },
        }
    }
}

} // verus!
