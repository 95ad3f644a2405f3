//! The error taxonomy of the generation pipeline. Every aborting condition is
//! one of these variants; the run is fail-fast, so the first error raised
//! anywhere stops the whole run.

use vstd::prelude::*;

verus! {

/// What can go wrong while generating documentation.
#[derive(Debug)]
pub enum DocError {
    /// A filesystem resource could not be opened, read or written, or a path
    /// could not be represented as valid text.
    Io(String),
    /// Input text does not conform to the config schema.
    Parse(String),
    /// A document could not be rendered to output text; carries the
    /// offending node's name.
    Render(String),
    /// A filename's characters could not be interpreted as text.
    InvalidInput(String),
}

impl DocError {
    /// The human-readable text carried by the error.
    pub fn message(&self) -> (r: &str)
        ensures
            r@ == self.message_view(),
    {
        match self {
            DocError::Io(m) => m.as_str(),
            DocError::Parse(m) => m.as_str(),
            DocError::Render(m) => m.as_str(),
            DocError::InvalidInput(m) => m.as_str(),
        }
    }

    /// The text carried by the error, as a sequence of characters.
    pub open spec fn message_view(&self) -> Seq<char> {
        match self {
            DocError::Io(m) => m@,
            DocError::Parse(m) => m@,
            DocError::Render(m) => m@,
            DocError::InvalidInput(m) => m@,
        }
    }
}

} // verus!
