//! The library's error type: a kind, a stable machine code, a message that
//! may be shown to clients, and an internal detail for logs.

use vstd::prelude::*;

verus! {

/// The category of a failure; it decides the HTTP status an error maps to.
#[derive(Debug, Clone, Copy, PartialEq, Eq, Structural)]
pub enum ErrorKind {
    Conflict,
    Database,
    Forbidden,
    InvalidInput,
    NotFound,
    Unauthorized,
    Upstream,
    Unknown,
}

/// The stable code of each kind.
pub open spec fn kind_code(kind: ErrorKind) -> Seq<char> {
    match kind {
        ErrorKind::Conflict => "conflict"@,
        ErrorKind::Database => "database_error"@,
        ErrorKind::Forbidden => "forbidden"@,
        ErrorKind::InvalidInput => "invalid_input"@,
        ErrorKind::NotFound => "not_found"@,
        ErrorKind::Unauthorized => "unauthorized"@,
        ErrorKind::Upstream => "upstream_error"@,
        ErrorKind::Unknown => "unknown_error"@,
    }
}

impl ErrorKind {
    /// The stable machine code of this kind.
    pub fn code(self) -> (code: &'static str)
        ensures
            code@ == kind_code(self),
    {
        match self {
            ErrorKind::Conflict => "conflict",
            ErrorKind::Database => "database_error",
            ErrorKind::Forbidden => "forbidden",
            ErrorKind::InvalidInput => "invalid_input",
            ErrorKind::NotFound => "not_found",
            ErrorKind::Unauthorized => "unauthorized",
            ErrorKind::Upstream => "upstream_error",
            ErrorKind::Unknown => "unknown_error",
        }
    }
}

/// An error of the library.
#[derive(Debug)]
pub struct LibError {
    pub kind: ErrorKind,
    /// Machine-readable code sent to clients.
    pub code: String,
    /// Message safe to show to clients.
    pub public: String,
    /// Internal detail, for logs only.
    pub source: String,
}

/// The content of an error, as contracts speak of it.
pub struct ErrorView {
    pub kind: ErrorKind,
    pub code: Seq<char>,
    pub public: Seq<char>,
    pub source: Seq<char>,
}

impl View for LibError {
    type V = ErrorView;

    open spec fn view(&self) -> ErrorView {
        ErrorView { kind: self.kind, code: self.code@, public: self.public@, source: self.source@ }
    }
}

/// The error of a kind whose code is the kind's own code.
pub open spec fn kind_error(kind: ErrorKind, public: Seq<char>, source: Seq<char>) -> ErrorView {
    ErrorView { kind, code: kind_code(kind), public, source }
}

/// An input-validation error.
pub open spec fn invalid_error(public: Seq<char>, source: Seq<char>) -> ErrorView {
    kind_error(ErrorKind::InvalidInput, public, source)
}

/// A storage error.
pub open spec fn database_error(public: Seq<char>, source: Seq<char>) -> ErrorView {
    kind_error(ErrorKind::Database, public, source)
}

/// Whether an executable text result is the given outcome: the same text,
/// or the same error.
pub open spec fn text_result_is(r: Result<String, LibError>, s: Result<Seq<char>, ErrorView>) -> bool {
    match (r, s) {
        (Ok(a), Ok(b)) => a@ == b,
        (Err(a), Err(b)) => a@ == b,
        _ => false,
    }
}

/// Whether an executable result is the given outcome: the same value, or the
/// same error.
pub open spec fn result_is<T>(r: Result<T, LibError>, s: Result<T, ErrorView>) -> bool {
    match (r, s) {
        (Ok(a), Ok(b)) => a == b,
        (Err(a), Err(b)) => a@ == b,
        _ => false,
    }
}

impl LibError {
    pub fn new(kind: ErrorKind, code: &str, public: &str, source: &str) -> (e: Self)
        ensures
            e@ == (ErrorView { kind, code: code@, public: public@, source: source@ }),
    {
        LibError {
            kind,
            code: String::from_str(code),
            public: String::from_str(public),
            source: String::from_str(source),
        }
    }

    pub fn from_kind(kind: ErrorKind, public: &str, source: &str) -> (e: Self)
        ensures
            e@ == kind_error(kind, public@, source@),
    {
        Self::new(kind, kind.code(), public, source)
    }

    pub fn conflict(public: &str, source: &str) -> (e: Self)
        ensures
            e@ == kind_error(ErrorKind::Conflict, public@, source@),
    {
        Self::from_kind(ErrorKind::Conflict, public, source)
    }

    pub fn database(public: &str, source: &str) -> (e: Self)
        ensures
            e@ == kind_error(ErrorKind::Database, public@, source@),
    {
        Self::from_kind(ErrorKind::Database, public, source)
    }

    pub fn forbidden(public: &str, source: &str) -> (e: Self)
        ensures
            e@ == kind_error(ErrorKind::Forbidden, public@, source@),
    {
        Self::from_kind(ErrorKind::Forbidden, public, source)
    }

    pub fn invalid(public: &str, source: &str) -> (e: Self)
        ensures
            e@ == kind_error(ErrorKind::InvalidInput, public@, source@),
    {
        Self::from_kind(ErrorKind::InvalidInput, public, source)
    }

    pub fn not_found(public: &str, source: &str) -> (e: Self)
        ensures
            e@ == kind_error(ErrorKind::NotFound, public@, source@),
    {
        Self::from_kind(ErrorKind::NotFound, public, source)
    }

    pub fn unauthorized(public: &str, source: &str) -> (e: Self)
        ensures
            e@ == kind_error(ErrorKind::Unauthorized, public@, source@),
    {
        Self::from_kind(ErrorKind::Unauthorized, public, source)
    }

    pub fn upstream(public: &str, source: &str) -> (e: Self)
        ensures
            e@ == kind_error(ErrorKind::Upstream, public@, source@),
    {
        Self::from_kind(ErrorKind::Upstream, public, source)
    }

    pub fn unknown(public: &str, source: &str) -> (e: Self)
        ensures
            e@ == kind_error(ErrorKind::Unknown, public@, source@),
    {
        Self::from_kind(ErrorKind::Unknown, public, source)
    }

    /// The text of this error: the public message, a colon and a space, and the detail.
    pub fn message(&self) -> (m: String)
        ensures
            m@ == self.public@ + ": "@ + self.source@,
    {
        let s = self.public.clone();
        let s = s.concat(": ");
        s.concat(self.source.as_str())
    }
}

} // verus!
