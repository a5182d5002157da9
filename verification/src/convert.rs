//! Failures of the transport and of the runtime, as errors to throw.
use crate::status::{Error, ErrorKind, StatusCode};
use vstd::prelude::*;
use vstd::std_specs::convert::FromSpecImpl;

verus! {

/// `std::io::Error`, taken as it comes: nothing inside it is seen here.
#[verifier::external_type_specification]
#[verifier::external_body]
pub struct ExIoError(std::io::Error);

/// `futures::task::SpawnError`, taken as it comes: nothing inside it is
/// seen here.
#[verifier::external_type_specification]
#[verifier::external_body]
pub struct ExSpawnError(futures::task::SpawnError);

/// `Display` of `std::io::Error`: what the error says of itself. Nothing
/// is claimed of the text.
#[verifier::external_body]
fn io_error_text(err: &std::io::Error) -> (text: String) {
    err.to_string()
}

/// `Display` of `futures::task::SpawnError`, which writes the same words
/// for every such error.
#[verifier::external_body]
fn spawn_error_text(err: &futures::task::SpawnError) -> (text: String)
    ensures
        text@ == "Executor is shutdown"@,
{
    err.to_string()
}

impl Error {
    /// Whether this is an error for a failure that is the server's own: the
    /// status 500, and a message that the client does not see.
    pub open spec fn is_internal(&self) -> bool {
        &&& self.status_code@ == 500
        &&& self.kind == ErrorKind::ServerError
        &&& !self.expose
    }

    /// The error for a failure that is the server's own, with `message` for
    /// the server's eyes.
    pub fn internal(message: String) -> (e: Error)
        ensures
            e.is_internal(),
            e.message == message,
    {
        Error::new(StatusCode::internal_server_error(), message, false)
    }
}

impl From<std::io::Error> for Error {
    /// An I/O failure is the server's own; the message is what the failure
    /// says of itself.
    fn from(err: std::io::Error) -> (e: Error)
        ensures
            e.is_internal(),
    {
        Error::internal(io_error_text(&err))
    }
}

/// The text of an I/O failure has no model here, so the conversion has no
/// model either: `from` states what it returns.
impl FromSpecImpl<std::io::Error> for Error {
    open spec fn obeys_from_spec() -> bool {
        false
    }

    open spec fn from_spec(err: std::io::Error) -> Error {
        arbitrary()
    }
}

impl From<futures::task::SpawnError> for Error {
    /// A task that cannot be spawned is the server's own failure.
    fn from(err: futures::task::SpawnError) -> (e: Error)
        ensures
            e.is_internal(),
            e.message@ == "Executor is shutdown"@,
    {
        Error::internal(spawn_error_text(&err))
    }
}

/// As for I/O failures, `from` states what it returns.
impl FromSpecImpl<futures::task::SpawnError> for Error {
    open spec fn obeys_from_spec() -> bool {
        false
    }

    open spec fn from_spec(err: futures::task::SpawnError) -> Error {
        arbitrary()
    }
}

} // verus!
