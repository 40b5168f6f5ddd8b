use vstd::prelude::*;

verus! {

/// An HTTP status, identified by its numeric code.
#[derive(Copy, Clone, Debug, PartialEq, Eq)]
pub struct Status {
    pub code: u16,
}

/// Codes of the server-error class (5xx).
pub open spec fn is_server_error_code(code: u16) -> bool {
    500 <= code < 600
}

impl Status {
    /// `400 Bad Request`.
    pub fn bad_request() -> (s: Status)
        ensures
            s.code == 400,
    {
        Status { code: 400 }
    }

    /// `404 Not Found`.
    pub fn not_found() -> (s: Status)
        ensures
            s.code == 404,
    {
        Status { code: 404 }
    }

    /// `500 Internal Server Error`.
    pub fn internal_server_error() -> (s: Status)
        ensures
            s.code == 500,
    {
        Status { code: 500 }
    }

    /// Whether the status belongs to the server-error class.
    pub fn is_server_error(&self) -> (b: bool)
        ensures
            b == is_server_error_code(self.code),
    {
        500 <= self.code && self.code < 600
    }
}

/// A failed response: a status and the message sent back with it.
#[derive(Debug)]
pub struct Error {
    pub status: Status,
    pub message: String,
}

impl Error {
    /// A failed response with the given status and message.
    pub fn new(status: Status, msg: String) -> (e: Error)
        ensures
            e.status == status,
            e.message@ == msg@,
    {
        Error { status, message: msg }
    }

    /// The text shown for the error: its message alone.
    pub fn to_string(&self) -> (s: String)
        ensures
            s@ == self.message@,
    {
        self.message.clone()
    }

    /// The response for a failed input/output operation whose error reads
    /// `io_message`: status 500 and the message `IO Error: <io_message>`.
    pub fn from_io(io_message: &str) -> (e: Error)
        ensures
            e.status.code == 500,
            e.message@ == "IO Error: "@ + io_message@,
    {
        let mut msg = String::from_str("IO Error: ");
        msg.append(io_message);
        Error::new(Status::internal_server_error(), msg)
    }
}

/// A JSON response: the value on success, or the status and message on failure.
pub type JsonResponse<R> = Result<R, Error>;

/// A successful response carrying `r`.
pub fn new_success<R>(r: R) -> (res: JsonResponse<R>)
    ensures
        res matches Ok(v) && v == r,
{
    Ok(r)
}

/// A failed response with the given status and message.
pub fn new_failure<R>(status: Status, msg: String) -> (res: JsonResponse<R>)
    ensures
        res matches Err(e) && e.status == status && e.message@ == msg@,
{
    Err(Error::new(status, msg))
}

} // verus!
