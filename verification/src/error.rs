use vstd::prelude::*;
use vstd::string::StringExecFns;

verus! {

/// The error taxonomy of the library.
///
/// `WithoutInit` marks a lookup of a logical identifier for which no
/// connection has been opened; `InvalidArgument` a required string argument
/// that was empty; `ShimError` a failure reported by the remote call itself;
/// `Other` address-parse and socket failures; `IOError` a system I/O failure
/// surfaced through a standard conversion.  Each variant carries the detail
/// text.
#[derive(Debug, PartialEq, Eq)]
pub enum Error {
    WithoutInit(String),
    InvalidArgument(String),
    ShimError(String),
    Other(String),
    IOError(String),
}

impl Error {
    /// The human-readable form of the error: a prefix naming the kind,
    /// followed by the detail text.
    pub open spec fn message_view(&self) -> Seq<char> {
        match self {
            Error::InvalidArgument(s) => "invalid argument:"@ + s@,
            Error::Other(s) => "other error: "@ + s@,
            Error::WithoutInit(s) => "connection has not been established: "@ + s@,
            Error::IOError(s) => "io error: "@ + s@,
            Error::ShimError(s) => "call shim-v2 failed: "@ + s@,
        }
    }

    /// Renders the error as one line of text, kind first, then detail.
    pub fn message(&self) -> (m: String)
        ensures
            m@ == self.message_view(),
    {
        let mut m = match self {
            Error::InvalidArgument(_) => String::from_str("invalid argument:"),
            Error::Other(_) => String::from_str("other error: "),
            Error::WithoutInit(_) => String::from_str("connection has not been established: "),
            Error::IOError(_) => String::from_str("io error: "),
            Error::ShimError(_) => String::from_str("call shim-v2 failed: "),
        };
        let detail = match self {
            Error::InvalidArgument(s) => s,
            Error::Other(s) => s,
            Error::WithoutInit(s) => s,
            Error::IOError(s) => s,
            Error::ShimError(s) => s,
        };
        m.append(detail.as_str());
        m
    }
}

} // verus!
