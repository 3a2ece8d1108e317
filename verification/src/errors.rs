//! Parse errors and their human-readable messages.
//!
//! Every error is terminal: the driver stops at the first one and hands it to
//! the caller, which prints the message and exits with a failing status.

use vstd::prelude::*;

verus! {

/// Mathematical view of a parse error.  Option names are carried without
/// their leading dashes; a malformed token is carried whole.
#[verifier::ext_equal]
pub enum ErrorView {
    UnknownOption(Seq<char>),
    InvalidOptionValue(Seq<char>, Seq<char>),
    MissingValue(Seq<char>),
    MalformedToken(Seq<char>),
}

/// Why a command line was rejected.
#[derive(Debug, Clone, PartialEq, Eq)]
pub enum ParseError {
    /// An option token whose name the registry does not know.
    UnknownOption(String),
    /// A value that does not parse as the option's expected type.
    InvalidOptionValue(String, String),
    /// A value-requiring option with no token left to take the value from.
    MissingValue(String),
    /// A long token with more than one `=`.
    MalformedToken(String),
}

impl View for ParseError {
    type V = ErrorView;

    open spec fn view(&self) -> ErrorView {
        match self {
            ParseError::UnknownOption(n) => ErrorView::UnknownOption(n@),
            ParseError::InvalidOptionValue(n, v) => ErrorView::InvalidOptionValue(n@, v@),
            ParseError::MissingValue(n) => ErrorView::MissingValue(n@),
            ParseError::MalformedToken(t) => ErrorView::MalformedToken(t@),
        }
    }
}

/// The message shown for a value that failed to parse.
pub fn option_error_string(option: &str, value: &str) -> (r: String)
    ensures
        r@ == "Option "@ + option@ + " got invalid value: "@ + value@,
{
    let mut r = String::new();
    r.append("Option ");
    r.append(option);
    r.append(" got invalid value: ");
    r.append(value);
    r
}

/// The message each error is reported with.
pub open spec fn spec_error_message(e: ErrorView) -> Seq<char> {
    match e {
        ErrorView::UnknownOption(n) => "Unexpected option "@ + n,
        ErrorView::InvalidOptionValue(n, v) => "Option "@ + n + " got invalid value: "@ + v,
        ErrorView::MissingValue(n) => "Option "@ + n + " requires value but no value is passed"@,
        ErrorView::MalformedToken(t) => "Option "@ + t + " has more than one equal sign"@,
    }
}

/// Renders an error as the message the process prints before failing.
pub fn error_message(e: &ParseError) -> (r: String)
    ensures
        r@ == spec_error_message(e@),
{
    match e {
        ParseError::UnknownOption(n) => {
            let mut r = String::new();
            r.append("Unexpected option ");
            r.append(n.as_str());
            r
        }
        ParseError::InvalidOptionValue(n, v) => option_error_string(n.as_str(), v.as_str()),
        ParseError::MissingValue(n) => {
            let mut r = String::new();
            r.append("Option ");
            r.append(n.as_str());
            r.append(" requires value but no value is passed");
            r
        }
        ParseError::MalformedToken(t) => {
            let mut r = String::new();
            r.append("Option ");
            r.append(t.as_str());
            r.append(" has more than one equal sign");
            r
        }
    }
}

} // verus!
