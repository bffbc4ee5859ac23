//! The error taxonomy of the engine.
//!
//! Every failing operation surfaces one of these values; no operation panics,
//! retries, or mutates its input on failure.

use vstd::prelude::*;

verus! {

/// A malformed strategy or option token, naming the segment that was invalid.
#[derive(Debug)]
pub enum ParseError {
    /// The token did not consist of exactly two segments joined by `'_'`.
    /// Carries the whole token.
    Shape(String),
    /// The fitting-mode segment was not one of `fit`, `cover`, `exact`.
    /// Carries that segment.
    Mode(String),
    /// The filter segment was not one of the five filter names.
    /// Carries that segment.
    Filter(String),
    /// A PNM subtype token was not one of `pbm`, `pgm`, `ppm`, `pam`.
    /// Carries the token.
    Subtype(String),
}

/// What a failing engine operation reports.
#[derive(Debug)]
pub enum EngineError {
    /// A strategy or option token could not be parsed.
    Parse(ParseError),
    /// A constraint was violated: a crop rectangle out of bounds, a
    /// size-constrained encode exceeded without a fallback strategy, or an
    /// option outside its documented range.
    ConstraintViolation(String),
    /// The external decode/encode collaborator reported an internal error;
    /// carries the collaborator's message unchanged.
    CodecFailure(String),
}

impl EngineError {
    /// A human-readable description of the error.
    pub fn message(&self) -> (r: String)
        ensures
            match self {
                EngineError::Parse(ParseError::Shape(t)) => r@ == "Invalid strategy | "@ + t@,
                EngineError::Parse(ParseError::Mode(t)) => r@ == "Invalid strategy | invalid mode: "@
                    + t@,
                EngineError::Parse(ParseError::Filter(t)) => r@
                    == "Invalid strategy | invalid filter: "@ + t@,
                EngineError::Parse(ParseError::Subtype(t)) => r@ == "unknown pnm subtype: "@ + t@,
                EngineError::ConstraintViolation(t) => r@ == t@,
                EngineError::CodecFailure(t) => r@ == t@,
            },
    {
        match self {
            EngineError::Parse(ParseError::Shape(t)) => "Invalid strategy | ".to_owned().concat(
                t.as_str(),
            ),
            EngineError::Parse(ParseError::Mode(t)) => "Invalid strategy | invalid mode: "
                .to_owned().concat(t.as_str()),
            EngineError::Parse(ParseError::Filter(t)) => "Invalid strategy | invalid filter: "
                .to_owned().concat(t.as_str()),
            EngineError::Parse(ParseError::Subtype(t)) => "unknown pnm subtype: ".to_owned()
                .concat(t.as_str()),
            EngineError::ConstraintViolation(t) => t.clone(),
            EngineError::CodecFailure(t) => t.clone(),
        }
    }
}

} // verus!
