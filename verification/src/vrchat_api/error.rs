//! What can go wrong in talking to the service.

use vstd::prelude::*;
use crate::text::{
    append_chars, decimal, str_chars, string_from_chars, to_decimal,
};

verus! {

/// Result type alias for operations on the service.
pub type VRCResult<T> = Result<T, VRCError>;

/// Main error type for operations on the service.
#[derive(Debug, Clone, PartialEq, Eq)]
pub enum VRCError {
    /// Network-related errors
    Network(String),
    /// HTTP errors with status code
    Http { status: u16, message: String },
    /// Authentication errors
    Authentication(String),
    /// Rate limiting error
    RateLimit(String),
    /// JSON parsing errors
    Parse(String),
    /// Invalid input or request
    InvalidInput(String),
    /// Unknown or unexpected errors
    Unknown(String),
}

/// The mathematical value of a [`VRCError`].
pub enum VRCErrorView {
    Network(Seq<char>),
    Http { status: u16, message: Seq<char> },
    Authentication(Seq<char>),
    RateLimit(Seq<char>),
    Parse(Seq<char>),
    InvalidInput(Seq<char>),
    Unknown(Seq<char>),
}

impl View for VRCError {
    type V = VRCErrorView;

    open spec fn view(&self) -> VRCErrorView {
        match self {
            VRCError::Network(m) => VRCErrorView::Network(m@),
            VRCError::Http { status, message } => VRCErrorView::Http {
                status: *status,
                message: message@,
            },
            VRCError::Authentication(m) => VRCErrorView::Authentication(m@),
            VRCError::RateLimit(m) => VRCErrorView::RateLimit(m@),
            VRCError::Parse(m) => VRCErrorView::Parse(m@),
            VRCError::InvalidInput(m) => VRCErrorView::InvalidInput(m@),
            VRCError::Unknown(m) => VRCErrorView::Unknown(m@),
        }
    }
}

impl VRCErrorView {
    /// The message of the error.
    pub open spec fn message(self) -> Seq<char> {
        match self {
            VRCErrorView::Network(m) => m,
            VRCErrorView::Http { message, .. } => message,
            VRCErrorView::Authentication(m) => m,
            VRCErrorView::RateLimit(m) => m,
            VRCErrorView::Parse(m) => m,
            VRCErrorView::InvalidInput(m) => m,
            VRCErrorView::Unknown(m) => m,
        }
    }

    /// The HTTP status of the error, where it has one.
    pub open spec fn status_code(self) -> Option<u16> {
        match self {
            VRCErrorView::Http { status, .. } => Some(status),
            _ => None,
        }
    }

    /// The line that tells the error to a reader: what kind it is of, then
    /// the message.
    pub open spec fn describe(self) -> Seq<char> {
        match self {
            VRCErrorView::Network(m) => "Network error: "@ + m,
            VRCErrorView::Http { status, message } => "HTTP "@ + decimal(status as nat)
                + " error: "@ + message,
            VRCErrorView::Authentication(m) => "Authentication error: "@ + m,
            VRCErrorView::RateLimit(m) => "Rate limit: "@ + m,
            VRCErrorView::Parse(m) => "Parse error: "@ + m,
            VRCErrorView::InvalidInput(m) => "Invalid input: "@ + m,
            VRCErrorView::Unknown(m) => "Unknown error: "@ + m,
        }
    }
}

/// The text of `prefix` followed by `message`.
fn prefixed(prefix: &str, message: &String) -> (r: String)
    ensures
        r@ == prefix@ + message@,
{
    let mut chars = str_chars(prefix);
    let tail = str_chars(message.as_str());
    append_chars(&mut chars, &tail);
    string_from_chars(&chars)
}

impl VRCError {
    /// Create a new HTTP error
    pub fn http(status: u16, message: String) -> (r: Self)
        ensures
            r@ == (VRCErrorView::Http { status, message: message@ }),
    {
        VRCError::Http { status, message }
    }

    /// Create a new network error
    pub fn network(message: String) -> (r: Self)
        ensures
            r@ == VRCErrorView::Network(message@),
    {
        VRCError::Network(message)
    }

    /// Create a new authentication error
    pub fn auth(message: String) -> (r: Self)
        ensures
            r@ == VRCErrorView::Authentication(message@),
    {
        VRCError::Authentication(message)
    }

    /// Create a new rate limit error
    pub fn rate_limit(message: String) -> (r: Self)
        ensures
            r@ == VRCErrorView::RateLimit(message@),
    {
        VRCError::RateLimit(message)
    }

    /// Create a new parse error
    pub fn parse(message: String) -> (r: Self)
        ensures
            r@ == VRCErrorView::Parse(message@),
    {
        VRCError::Parse(message)
    }

    /// Create a new invalid input error
    pub fn invalid_input(message: String) -> (r: Self)
        ensures
            r@ == VRCErrorView::InvalidInput(message@),
    {
        VRCError::InvalidInput(message)
    }

    /// Create an unknown error
    pub fn unknown(message: String) -> (r: Self)
        ensures
            r@ == VRCErrorView::Unknown(message@),
    {
        VRCError::Unknown(message)
    }

    /// Get the error message
    pub fn message(&self) -> (r: &str)
        ensures
            r@ == self@.message(),
    {
        match self {
            VRCError::Network(m) => m.as_str(),
            VRCError::Http { message, .. } => message.as_str(),
            VRCError::Authentication(m) => m.as_str(),
            VRCError::RateLimit(m) => m.as_str(),
            VRCError::Parse(m) => m.as_str(),
            VRCError::InvalidInput(m) => m.as_str(),
            VRCError::Unknown(m) => m.as_str(),
        }
    }

    /// Get the HTTP status code if applicable
    pub fn status_code(&self) -> (r: Option<u16>)
        ensures
            r == self@.status_code(),
    {
        match self {
            VRCError::Http { status, .. } => Some(*status),
            _ => None,
        }
    }

    /// The line that tells the error to a reader.
    pub fn to_string(&self) -> (r: String)
        ensures
            r@ == self@.describe(),
    {
        match self {
            VRCError::Network(m) => prefixed("Network error: ", m),
            VRCError::Http { status, message } => {
                let mut chars = str_chars("HTTP ");
                let number = to_decimal(*status as u64);
                append_chars(&mut chars, &number);
                let middle = str_chars(" error: ");
                append_chars(&mut chars, &middle);
                let tail = str_chars(message.as_str());
                append_chars(&mut chars, &tail);
                string_from_chars(&chars)
            },
            VRCError::Authentication(m) => prefixed("Authentication error: ", m),
            VRCError::RateLimit(m) => prefixed("Rate limit: ", m),
            VRCError::Parse(m) => prefixed("Parse error: ", m),
            VRCError::InvalidInput(m) => prefixed("Invalid input: ", m),
            VRCError::Unknown(m) => prefixed("Unknown error: ", m),
        }
    }
}

} // verus!
