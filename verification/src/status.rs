//! Status codes and the error value that a handler throws.
use vstd::prelude::*;
use vstd::string::*;

verus! {

/// An HTTP status code: a number from 100 to 999.
#[derive(Clone, Copy, Debug, PartialEq, Eq, Structural, Hash)]
pub struct StatusCode {
    code: u16,
}

/// What `StatusCode::from_u16` returns for a number outside 100..=999.
#[derive(Clone, Copy, Debug, PartialEq, Eq, Structural)]
pub struct InvalidStatusCode {}

/// The class of a thrown status, given by the hundreds digit of its code.
#[derive(Clone, Copy, Debug, PartialEq, Eq, Structural)]
pub enum ErrorKind {
    /// 1xx
    Informational,
    /// 3xx
    Redirection,
    /// 4xx
    ClientError,
    /// 5xx
    ServerError,
}

/// The kind of the status `code`, where it has one: 2xx is no error, and
/// nothing above 5xx is classified.
pub open spec fn kind_of(code: int) -> Option<ErrorKind> {
    if 100 <= code < 200 {
        Some(ErrorKind::Informational)
    } else if 300 <= code < 400 {
        Some(ErrorKind::Redirection)
    } else if 400 <= code < 500 {
        Some(ErrorKind::ClientError)
    } else if 500 <= code < 600 {
        Some(ErrorKind::ServerError)
    } else {
        None
    }
}

impl View for StatusCode {
    type V = int;

    closed spec fn view(&self) -> int {
        self.code as int
    }
}

impl StatusCode {
    #[verifier::type_invariant]
    spec fn in_range(self) -> bool {
        100 <= self.code <= 999
    }

    /// Two status codes with the same number are the same status code.
    pub proof fn lemma_same_number(self, other: StatusCode)
        requires
            self@ == other@,
        ensures
            self == other,
    {
    }

    /// The status code with the number `src`, if `src` is in 100..=999.
    pub fn from_u16(src: u16) -> (r: Result<StatusCode, InvalidStatusCode>)
        ensures
            100 <= src <= 999 ==> r is Ok && r->Ok_0@ == src,
            !(100 <= src <= 999) ==> r is Err,
    {
        if src < 100 || src >= 1000 {
            Err(InvalidStatusCode {  })
        } else {
            Ok(StatusCode { code: src })
        }
    }

    /// The number of this status code.
    pub fn as_u16(&self) -> (n: u16)
        ensures
            n == self@,
            100 <= n <= 999,
    {
        proof {
            use_type_invariant(self);
        }
        self.code
    }

    /// 200, the status of a response that nothing has touched.
    pub fn ok() -> (s: StatusCode)
        ensures
            s@ == 200,
    {
        StatusCode { code: 200 }
    }

    /// 500, the status of a failure that is the server's own.
    pub fn internal_server_error() -> (s: StatusCode)
        ensures
            s@ == 500,
    {
        StatusCode { code: 500 }
    }

    /// Whether an error can carry this status: whether it has a kind.
    pub fn is_throwable(&self) -> (b: bool)
        ensures
            b == (kind_of(self@) is Some),
    {
        let class: u16 = self.as_u16() / 100;
        class == 1 || class == 3 || class == 4 || class == 5
    }
}

impl ErrorKind {
    /// The kind of a status that can be thrown.
    pub fn infer(status_code: StatusCode) -> (kind: ErrorKind)
        requires
            kind_of(status_code@) is Some,
        ensures
            Some(kind) == kind_of(status_code@),
    {
        let class: u16 = status_code.as_u16() / 100;
        if class == 1 {
            ErrorKind::Informational
        } else if class == 3 {
            ErrorKind::Redirection
        } else if class == 4 {
            ErrorKind::ClientError
        } else {
            ErrorKind::ServerError
        }
    }
}

/// The error that a handler throws: a status for the client, a message,
/// and whether the client may see the message.
#[derive(Clone, Debug)]
pub struct Error {
    /// The status that is answered when nothing catches the error.
    pub status_code: StatusCode,
    /// The kind of `status_code`.
    pub kind: ErrorKind,
    /// Written to the response body if `expose` is set.
    pub message: String,
    /// Whether the message is shown to the client.
    pub expose: bool,
}

/// The text that `http::StatusCode` displays for the status with the
/// number `code`: the number and the reason phrase that `http` knows for it.
pub uninterp spec fn status_text(code: u16) -> Seq<char>;

/// `Display` of `http::StatusCode`, for the status with the number `code`
/// (`http::StatusCode::from_u16` accepts every number in 100..=999). The
/// text depends on the number alone.
#[verifier::external_body]
fn display_status(code: u16) -> (text: String)
    requires
        100 <= code <= 999,
    ensures
        text@ == status_text(code),
{
    match http::StatusCode::from_u16(code) {
        Ok(status) => status.to_string(),
        Err(_) => String::new(),
    }
}

impl Error {
    /// The kind is the one that the status code gives.
    pub open spec fn wf(&self) -> bool {
        kind_of(self.status_code@) == Some(self.kind)
    }

    /// What `to_string` returns, given the text of the status.
    pub open spec fn line(status: Seq<char>, message: Seq<char>) -> Seq<char> {
        status + ": "@ + message
    }

    /// An error with the given status, message and exposure; its kind is
    /// inferred from the status.
    pub fn new(status_code: StatusCode, message: String, expose: bool) -> (e: Error)
        requires
            kind_of(status_code@) is Some,
        ensures
            e.status_code == status_code,
            Some(e.kind) == kind_of(status_code@),
            e.message == message,
            e.expose == expose,
            e.wf(),
    {
        Error { status_code, kind: ErrorKind::infer(status_code), message, expose }
    }

    /// Whether the default status handler hands this error on.
    pub fn need_throw(&self) -> (b: bool)
        ensures
            b == (self.kind == ErrorKind::ServerError),
    {
        self.kind == ErrorKind::ServerError
    }

    /// The status text, a colon, a space and the message.
    pub fn format_line(status: String, message: &str) -> (text: String)
        ensures
            text@ == Self::line(status@, message@),
    {
        let mut text = status;
        text.append(": ");
        text.append(message);
        text
    }

    /// The error as one line: the status as `http` displays it, then the
    /// message.
    pub fn to_string(&self) -> (text: String)
        ensures
            text@ == Self::line(status_text(self.status_code@ as u16), self.message@),
    {
        let status = display_status(self.status_code.as_u16());
        Self::format_line(status, self.message.as_str())
    }
}

} // verus!
