use vstd::prelude::*;

verus! {

/// Error kinds shared by every fallible operation.
#[derive(Debug, Copy, Clone, PartialEq, Eq, Structural)]
pub enum Error {
    /// Generic failure.
    Failure,
    /// Transient failure; the request can be retried.
    Retry,
    /// The request cannot be handled at this time.
    Busy,
    /// The system is in an unrecoverable state.
    Fatal,
    /// The request is invalid or malformed.
    Invalid,
    /// The request is unsupported.
    Unsupported,
    /// Request data could not be parsed.
    Parse,
    /// Request or data outside of the allowed range.
    Range,
    /// Insufficient memory.
    Nomem,
    /// No connection.
    Noconn,
    /// No more data available.
    Nodata,
    /// Unknown entry or target requested.
    Noentry,
    /// Invalid or missing configuration.
    Config,
    /// The peer reported an application error.
    Remote,
    /// Expected non-ok status.
    Expected,
    /// The request timed out.
    Timeout,
}

/// The text that names error kind `e`.
pub open spec fn error_text(e: Error) -> Seq<char> {
    match e {
        Error::Failure => "Failure"@,
        Error::Retry => "Retry"@,
        Error::Busy => "Busy"@,
        Error::Fatal => "Fatal"@,
        Error::Invalid => "Invalid"@,
        Error::Unsupported => "Unsupported"@,
        Error::Parse => "Parse"@,
        Error::Range => "Range"@,
        Error::Nomem => "Nomem"@,
        Error::Noconn => "Noconn"@,
        Error::Nodata => "Nodata"@,
        Error::Noentry => "Noentry"@,
        Error::Config => "Config"@,
        Error::Remote => "Remote"@,
        Error::Expected => "Expected"@,
        Error::Timeout => "Timeout"@,
    }
}

impl Error {
    /// The name of this error kind, as text.
    pub fn as_str(&self) -> (r: &'static str)
        ensures
            r@ == error_text(*self),
    {
        match self {
            Error::Failure => "Failure",
            Error::Retry => "Retry",
            Error::Busy => "Busy",
            Error::Fatal => "Fatal",
            Error::Invalid => "Invalid",
            Error::Unsupported => "Unsupported",
            Error::Parse => "Parse",
            Error::Range => "Range",
            Error::Nomem => "Nomem",
            Error::Noconn => "Noconn",
            Error::Nodata => "Nodata",
            Error::Noentry => "Noentry",
            Error::Config => "Config",
            Error::Remote => "Remote",
            Error::Expected => "Expected",
            Error::Timeout => "Timeout",
        }
    }
}

/// Status code as exchanged with the transport: success, or one error kind.
#[derive(Debug, Copy, Clone, PartialEq, Eq, Structural)]
pub enum Status {
    /// The operation succeeded.
    Success,
    /// The operation failed with the given kind.
    Failed(Error),
}

/// The result that a status stands for.
pub open spec fn result_of_status(s: Status) -> Result<(), Error> {
    match s {
        Status::Success => Ok(()),
        Status::Failed(e) => Err(e),
    }
}

/// The status that a result is reported as.
pub open spec fn status_of_result(r: Result<(), Error>) -> Status {
    match r {
        Ok(()) => Status::Success,
        Err(e) => Status::Failed(e),
    }
}

impl Status {
    /// The status that reports error `e`.
    pub fn from_error(e: Error) -> (r: Status)
        ensures
            r == Status::Failed(e),
    {
        Status::Failed(e)
    }

    /// The status that reports result `r`.
    pub fn from_result(r: Result<(), Error>) -> (s: Status)
        ensures
            s == status_of_result(r),
    {
        match r {
            Ok(()) => Status::Success,
            Err(e) => Status::Failed(e),
        }
    }

    /// The result that this status stands for.
    pub fn into_result(self) -> (r: Result<(), Error>)
        ensures
            r == result_of_status(self),
    {
        match self {
            Status::Success => Ok(()),
            Status::Failed(e) => Err(e),
        }
    }

    /// Whether this status reports success.
    pub fn is_ok(&self) -> (r: bool)
        ensures
            r == (*self == Status::Success),
    {
        match self {
            Status::Success => true,
            Status::Failed(_) => false,
        }
    }
}

impl From<Error> for Status {
    fn from(e: Error) -> (r: Status) {
        Status::Failed(e)
    }
}

impl vstd::std_specs::convert::FromSpecImpl<Error> for Status {
    open spec fn obeys_from_spec() -> bool {
        true
    }

    open spec fn from_spec(e: Error) -> Status {
        Status::Failed(e)
    }
}

/// A result survives being reported as a status and read back.
pub proof fn lemma_status_round_trip(r: Result<(), Error>)
    ensures
        result_of_status(status_of_result(r)) == r,
{
    match r {
        Ok(u) => {
            assert(u == ());
        },
        Err(_) => {},
    }
}

/// A status survives being read as a result and reported again.
pub proof fn lemma_result_round_trip(s: Status)
    ensures
        status_of_result(result_of_status(s)) == s,
{
}

} // verus!
