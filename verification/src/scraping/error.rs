//! Errors of fetching and parsing scraped data.
use vstd::prelude::*;

verus! {

/// What the library keeps of a failed network request: its message and
/// whether it timed out or failed to connect.
#[derive(Debug)]
pub struct NetworkFailure {
    pub message: String,
    pub is_timeout: bool,
    pub is_connect: bool,
}

#[derive(Debug)]
pub enum ScraperError {
    NetworkError(NetworkFailure),
    HttpError { status: u16, url: String },
    RateLimited { retry_after_secs: u64 },
    ParseError(String),
    ElementNotFound(String),
    UnexpectedValue(String),
    JsonError(String),
    MissingField(String),
    UnknownValue(String),
    InvalidCondition(String),
    InvalidDate(String),
    InvalidShape(String),
}

pub type ScraperResult<T> = Result<T, ScraperError>;

impl ScraperError {
    /// Whether retrying the request may succeed: network timeouts and connection
    /// failures, server errors (status 500 and above), and rate limiting.
    pub open spec fn spec_is_retryable(&self) -> bool {
        match self {
            ScraperError::NetworkError(e) => e.is_timeout || e.is_connect,
            ScraperError::HttpError { status, .. } => *status >= 500,
            ScraperError::RateLimited { .. } => true,
            _ => false,
        }
    }

    pub fn is_retryable(&self) -> (r: bool)
        ensures r == self.spec_is_retryable(),
    {
        match self {
            ScraperError::NetworkError(e) => e.is_timeout || e.is_connect,
            ScraperError::HttpError { status, .. } => *status >= 500,
            ScraperError::RateLimited { .. } => true,
            _ => false,
        }
    }
}


/// The kind of a scraping error, without what it carries.
#[derive(Debug, Clone, Copy, PartialEq, Eq, Structural)]
pub enum ErrorKind {
    Network,
    Http,
    RateLimited,
    Parse,
    ElementNotFound,
    UnexpectedValue,
    Json,
    MissingField,
    UnknownValue,
    InvalidCondition,
    InvalidDate,
    InvalidShape,
}

impl ScraperError {
    pub open spec fn spec_kind(&self) -> ErrorKind {
        match self {
            ScraperError::NetworkError(_) => ErrorKind::Network,
            ScraperError::HttpError { .. } => ErrorKind::Http,
            ScraperError::RateLimited { .. } => ErrorKind::RateLimited,
            ScraperError::ParseError(_) => ErrorKind::Parse,
            ScraperError::ElementNotFound(_) => ErrorKind::ElementNotFound,
            ScraperError::UnexpectedValue(_) => ErrorKind::UnexpectedValue,
            ScraperError::JsonError(_) => ErrorKind::Json,
            ScraperError::MissingField(_) => ErrorKind::MissingField,
            ScraperError::UnknownValue(_) => ErrorKind::UnknownValue,
            ScraperError::InvalidCondition(_) => ErrorKind::InvalidCondition,
            ScraperError::InvalidDate(_) => ErrorKind::InvalidDate,
            ScraperError::InvalidShape(_) => ErrorKind::InvalidShape,
        }
    }

    /// The text that the error carries: the message, or for an HTTP error the URL.
    pub open spec fn spec_detail(&self) -> Seq<char> {
        match self {
            ScraperError::NetworkError(e) => e.message@,
            ScraperError::HttpError { url, .. } => url@,
            ScraperError::RateLimited { .. } => Seq::empty(),
            ScraperError::ParseError(m) | ScraperError::ElementNotFound(m)
            | ScraperError::UnexpectedValue(m) | ScraperError::JsonError(m)
            | ScraperError::MissingField(m) | ScraperError::UnknownValue(m)
            | ScraperError::InvalidCondition(m) | ScraperError::InvalidDate(m)
            | ScraperError::InvalidShape(m) => m@,
        }
    }

    /// The kind of the error and the text it carries.
    pub open spec fn report(&self) -> (ErrorKind, Seq<char>) {
        (self.spec_kind(), self.spec_detail())
    }

    pub fn kind(&self) -> (r: ErrorKind)
        ensures r == self.spec_kind(),
    {
        match self {
            ScraperError::NetworkError(_) => ErrorKind::Network,
            ScraperError::HttpError { .. } => ErrorKind::Http,
            ScraperError::RateLimited { .. } => ErrorKind::RateLimited,
            ScraperError::ParseError(_) => ErrorKind::Parse,
            ScraperError::ElementNotFound(_) => ErrorKind::ElementNotFound,
            ScraperError::UnexpectedValue(_) => ErrorKind::UnexpectedValue,
            ScraperError::JsonError(_) => ErrorKind::Json,
            ScraperError::MissingField(_) => ErrorKind::MissingField,
            ScraperError::UnknownValue(_) => ErrorKind::UnknownValue,
            ScraperError::InvalidCondition(_) => ErrorKind::InvalidCondition,
            ScraperError::InvalidDate(_) => ErrorKind::InvalidDate,
            ScraperError::InvalidShape(_) => ErrorKind::InvalidShape,
        }
    }
}

impl ScraperError {
    /// The text that the error carries, taken out of it.
    pub fn into_detail(self) -> (r: String)
        ensures
            r@ == self.spec_detail(),
    {
        match self {
            ScraperError::NetworkError(e) => e.message,
            ScraperError::HttpError { url, .. } => url,
            ScraperError::RateLimited { .. } => String::new(),
            ScraperError::ParseError(m) => m,
            ScraperError::ElementNotFound(m) => m,
            ScraperError::UnexpectedValue(m) => m,
            ScraperError::JsonError(m) => m,
            ScraperError::MissingField(m) => m,
            ScraperError::UnknownValue(m) => m,
            ScraperError::InvalidCondition(m) => m,
            ScraperError::InvalidDate(m) => m,
            ScraperError::InvalidShape(m) => m,
        }
    }
}

/// Builds the error of the given kind that carries `msg`.
pub fn error_of(kind: ErrorKind, msg: String) -> (r: ScraperError)
    requires
        kind != ErrorKind::Network,
        kind != ErrorKind::Http,
        kind != ErrorKind::RateLimited,
    ensures
        r.report() == (kind, msg@),
{
    match kind {
        ErrorKind::Parse => ScraperError::ParseError(msg),
        ErrorKind::ElementNotFound => ScraperError::ElementNotFound(msg),
        ErrorKind::UnexpectedValue => ScraperError::UnexpectedValue(msg),
        ErrorKind::Json => ScraperError::JsonError(msg),
        ErrorKind::MissingField => ScraperError::MissingField(msg),
        ErrorKind::UnknownValue => ScraperError::UnknownValue(msg),
        ErrorKind::InvalidCondition => ScraperError::InvalidCondition(msg),
        ErrorKind::InvalidDate => ScraperError::InvalidDate(msg),
        _ => ScraperError::InvalidShape(msg),
    }
}

} // verus!
