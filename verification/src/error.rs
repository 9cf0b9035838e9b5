//! The library's error type: a message and, where known, a source line.

use vstd::prelude::*;
use crate::text::{decimal, string_of, usize_to_decimal};

verus! {

/// Unified error type for lexing, parsing and checking.
#[derive(Debug, Clone)]
pub struct Error {
    pub message: String,
    pub line: Option<usize>,
}

/// Mathematical model of an [`Error`].
pub struct ErrorModel {
    pub message: Seq<char>,
    pub line: Option<nat>,
}

impl View for Error {
    type V = ErrorModel;

    open spec fn view(&self) -> ErrorModel {
        ErrorModel {
            message: self.message@,
            line: match self.line {
                Some(l) => Some(l as nat),
                None => None,
            },
        }
    }
}

/// The user-facing rendering of an error: `error (line N): message`, or
/// `error: message` when no line is known.
pub open spec fn error_text(e: ErrorModel) -> Seq<char> {
    match e.line {
        Some(l) => "error (line "@ + decimal(l) + "): "@ + e.message,
        None => "error: "@ + e.message,
    }
}

impl Error {
    pub fn new(message: String, line: Option<usize>) -> (e: Error)
        ensures
            e.message == message,
            e.line == line,
    {
        Error { message, line }
    }

    /// An error with no source line.
    pub fn msg(message: String) -> (e: Error)
        ensures
            e.message == message,
            e.line is None,
    {
        Error::new(message, None)
    }

    /// The error as the user sees it (see [`error_text`]).
    pub fn to_string(&self) -> (s: String)
        ensures
            s@ == error_text(self@),
    {
        match self.line {
            Some(l) => {
                let mut out = String::from_str("error (line ");
                let digits = usize_to_decimal(l);
                let ds = string_of(digits.as_slice());
                out.append(ds.as_str());
                out.append("): ");
                out.append(self.message.as_str());
                proof {
                    reveal_strlit("error (line ");
                    reveal_strlit("): ");
                }
                out
            },
            None => {
                let mut out = String::from_str("error: ");
                out.append(self.message.as_str());
                out
            },
        }
    }
}

} // verus!
