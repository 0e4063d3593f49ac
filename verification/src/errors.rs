//! Error handling for the application.
//!
//! Every failure is one general error: a message for the user and, where the
//! failure was caused by another one, the text of that cause.

use vstd::prelude::*;
use vstd::std_specs::convert::FromSpecImpl;
use vstd::string::*;

use crate::text::opt_text;

verus! {

/// General error type for the application.
#[derive(Clone, Debug, PartialEq)]
pub struct GeneralError {
    /// Error message
    pub message: String,
    /// Text of the error that caused this one, if any
    pub from: Option<String>,
}

/// What a [`GeneralError`] holds.
pub struct GeneralErrorView {
    pub message: Seq<char>,
    pub source: Option<Seq<char>>,
}

impl View for GeneralError {
    type V = GeneralErrorView;

    open spec fn view(&self) -> GeneralErrorView {
        GeneralErrorView { message: self.message@, source: opt_text(self.from) }
    }
}

/// The line shown to the user for an error.
pub open spec fn error_text(e: GeneralErrorView) -> Seq<char> {
    match e.source {
        Some(source) => "GeneralError: "@ + e.message + " from "@ + source,
        None => "GeneralError: "@ + e.message,
    }
}

impl GeneralError {
    /// Create a new GeneralError instance
    pub fn new(msg: &str) -> (e: GeneralError)
        ensures
            e@ == (GeneralErrorView { message: msg@, source: None }),
    {
        GeneralError { message: String::from_str(msg), from: None }
    }

    /// Create a new GeneralError instance with a source
    pub fn new_with_source(message: String, from: String) -> (e: GeneralError)
        ensures
            e@ == (GeneralErrorView { message: message@, source: Some(from@) }),
    {
        GeneralError { message, from: Some(from) }
    }

    /// The message of the error.
    pub fn message(&self) -> (m: &str)
        ensures
            m@ == self@.message,
    {
        self.message.as_str()
    }

    /// The text of the cause, if the error has one.
    pub fn source(&self) -> (s: Option<&str>)
        ensures
            match s {
                Some(t) => self@.source == Some(t@),
                None => self@.source is None,
            },
    {
        match &self.from {
            Some(t) => Some(t.as_str()),
            None => None,
        }
    }

    /// The line shown to the user: the message, followed by the cause if
    /// there is one.
    pub fn to_text(&self) -> (r: String)
        ensures
            r@ == error_text(self@),
    {
        let mut out = String::from_str("GeneralError: ");
        out.append(self.message.as_str());
        match &self.from {
            Some(source) => {
                out.append(" from ");
                out.append(source.as_str());
            },
            None => {},
        }
        out
    }
}

impl From<String> for GeneralError {
    fn from(value: String) -> (e: GeneralError) {
        GeneralError { message: value, from: None }
    }
}

impl FromSpecImpl<String> for GeneralError {
    open spec fn obeys_from_spec() -> bool {
        true
    }

    open spec fn from_spec(value: String) -> GeneralError {
        GeneralError { message: value, from: None }
    }
}

} // verus!
