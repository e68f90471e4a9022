//! Typed errors of the parsers and the compositor.

use vstd::prelude::*;

verus! {

/// A wave string held a character outside the wave notation.
#[derive(Debug, PartialEq)]
pub struct ParseWaveError {
    details: String,
}

impl View for ParseWaveError {
    type V = Seq<char>;

    closed spec fn view(&self) -> Seq<char> {
        self.details@
    }
}

impl ParseWaveError {
    pub fn new(msg: &str) -> (e: ParseWaveError)
        ensures
            e@ == msg@,
    {
        ParseWaveError { details: msg.to_owned() }
    }

    /// The error's message.
    pub fn details(&self) -> (s: &str)
        ensures
            s@ == self@,
    {
        self.details.as_str()
    }
}

/// What can go wrong while a diagram description is parsed.
#[derive(Debug, PartialEq)]
pub enum ParseError {
    ParseWaveError(ParseWaveError),
    ParseSignalError,
    ParseConfigError,
    ParseDiagramError,
    /// The diagram description was not well-formed; carries the reader's
    /// message.
    ParseJsonError(String),
}

/// The message a parse error reports.
pub open spec fn spec_parse_error_message(e: ParseError) -> Seq<char> {
    match e {
        ParseError::ParseWaveError(_) => " Error occured during wave parsing"@,
        ParseError::ParseSignalError => " Error occured during signal parsing"@,
        ParseError::ParseConfigError => " Error occured during config parsing"@,
        ParseError::ParseDiagramError => " Error occured during diagram parsing"@,
        ParseError::ParseJsonError(_) => " Error occured during json parsing"@,
    }
}

impl ParseError {
    /// The error's message.
    pub fn message(&self) -> (s: String)
        ensures
            s@ == spec_parse_error_message(*self),
    {
        match *self {
            ParseError::ParseWaveError(_) => String::from_str(" Error occured during wave parsing"),
            ParseError::ParseSignalError => String::from_str(
                " Error occured during signal parsing",
            ),
            ParseError::ParseConfigError => String::from_str(
                " Error occured during config parsing",
            ),
            ParseError::ParseDiagramError => String::from_str(
                " Error occured during diagram parsing",
            ),
            ParseError::ParseJsonError(_) => String::from_str(" Error occured during json parsing"),
        }
    }
}

/// What can go wrong while a diagram is composed.
#[derive(Debug, PartialEq, Eq, Structural, Clone, Copy)]
pub enum ComposeError {
    /// A level that the translator does not support (`Idle`) was reached.
    UnsupportedLevel,
}

} // verus!
