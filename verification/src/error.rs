//! The closed set of failures that end a run.

use vstd::prelude::*;
use vstd::string::*;

verus! {

/// Why a run stopped. Every variant carries the text of the underlying
/// failure, so that the log can show it.
#[derive(Debug)]
pub enum Error {
    /// A file could not be opened, read or written.
    Io(String),
    /// A required setting is missing from the environment.
    Env(String),
    /// Persisted state could not be decoded.
    SerdeJson(String),
    /// The posting service refused or failed.
    TwitterV2(String),
    /// A point in time could not be represented.
    Time(String),
    /// The OAuth2 client was configured wrongly.
    OAuth2Conf(String),
    /// A point in time could not be written as text.
    TimeFormat(String),
    /// Any other failure of a collaborator.
    Error(String),
    /// A failure this library detected itself, with its own message.
    ErrorString(String),
}

impl Error {
    /// The text that precedes the detail when the error is shown.
    pub open spec fn prefix(self) -> Seq<char> {
        match self {
            Error::Io(_) => "IO Error: "@,
            Error::Env(_) => "Env Error: "@,
            Error::SerdeJson(_) => "SerdeJson Error: "@,
            Error::TwitterV2(_) => "TwitterV2 Error: "@,
            Error::Time(_) => "Time Error: "@,
            Error::OAuth2Conf(_) => "OAuth2 Configuration Error: "@,
            Error::TimeFormat(_) => "Time Format Error: "@,
            Error::Error(_) => "Error: "@,
            Error::ErrorString(_) => "Error: "@,
        }
    }

    /// The text of the underlying failure.
    pub open spec fn detail(self) -> Seq<char> {
        match self {
            Error::Io(e) => e@,
            Error::Env(e) => e@,
            Error::SerdeJson(e) => e@,
            Error::TwitterV2(e) => e@,
            Error::Time(e) => e@,
            Error::OAuth2Conf(e) => e@,
            Error::TimeFormat(e) => e@,
            Error::Error(e) => e@,
            Error::ErrorString(e) => e@,
        }
    }

    /// The whole line shown for this error: prefix, then detail.
    pub open spec fn text(self) -> Seq<char> {
        self.prefix() + self.detail()
    }

    /// Wraps the description of an otherwise unclassified failure.
    pub fn new(e: String) -> (r: Error)
        ensures
            r == Error::Error(e),
    {
        Error::Error(e)
    }

    /// Renders the error as it is shown to the operator.
    pub fn to_string(&self) -> (r: String)
        ensures
            r@ == self.text(),
    {
        match self {
            Error::Io(e) => String::from_str("IO Error: ").concat(e.as_str()),
            Error::Env(e) => String::from_str("Env Error: ").concat(e.as_str()),
            Error::SerdeJson(e) => String::from_str("SerdeJson Error: ").concat(e.as_str()),
            Error::TwitterV2(e) => String::from_str("TwitterV2 Error: ").concat(e.as_str()),
            Error::Time(e) => String::from_str("Time Error: ").concat(e.as_str()),
            Error::OAuth2Conf(e) => String::from_str("OAuth2 Configuration Error: ").concat(
                e.as_str(),
            ),
            Error::TimeFormat(e) => String::from_str("Time Format Error: ").concat(e.as_str()),
            Error::Error(e) => String::from_str("Error: ").concat(e.as_str()),
            Error::ErrorString(e) => String::from_str("Error: ").concat(e.as_str()),
        }
    }
}

} // verus!
