//! What the web server's response guard does.

use vstd::prelude::*;
use crate::response::{is_server_error_code, Status};

verus! {

/// Hides the details of server errors from clients.
#[derive(Debug, Clone, Copy)]
pub struct GuardInternalErrors();

impl GuardInternalErrors {
    /// The name under which the guard is installed.
    pub fn name(&self) -> (n: &'static str)
        ensures
            n@ == "Guard Internal Errors"@,
    {
        "Guard Internal Errors"
    }

    /// The body that replaces a response's body: for a server error, a note
    /// to see the logs; otherwise the body is kept.
    pub fn replacement_body(&self, status: Status) -> (b: Option<&'static str>)
        ensures
            match b {
                Some(s) => is_server_error_code(status.code) && s@ == "Internal error occured, see the logs."@,
                None => !is_server_error_code(status.code),
            },
    {
        if status.is_server_error() {
            Some("Internal error occured, see the logs.")
        } else {
            None
        }
    }
}

} // verus!
