//! Errors of the import step, with the category that tells where it failed.
use vstd::prelude::*;

verus! {

/// The error type shared with the rest of the engine.
#[verifier::external_type_specification]
#[verifier::external_body]
pub struct ExError(amethyst_error::Error);

/// The message an error displays (what `amethyst_error::Error`'s `Display` prints).
pub uninterp spec fn message_of(e: amethyst_error::Error) -> Seq<char>;

/// The error recorded as the cause of an error (what `amethyst_error::Error::source` returns).
pub uninterp spec fn source_of(e: amethyst_error::Error) -> Option<amethyst_error::Error>;

/// Relies on `amethyst_error::Error::from_string`: an error that displays
/// `message` and has no cause.
#[verifier::external_body]
fn message_error(message: &'static str) -> (r: amethyst_error::Error)
    ensures
        message_of(r) == message@,
        source_of(r) == None::<amethyst_error::Error>,
{
    amethyst_error::Error::from_string(message)
}

/// Relies on `amethyst_error::Error::with_source`: `top` with `cause` attached
/// as the error it was caused by.
/// Its message stays that of `top`.
#[verifier::external_body]
fn caused_by(top: amethyst_error::Error, cause: amethyst_error::Error) -> (r: amethyst_error::Error)
    ensures
        message_of(r) == message_of(top),
        source_of(r) == Some(cause),
{
    top.with_source(cause)
}

/// The message of the error that wraps a failure of the byte source.
pub const SOURCE_FAILURE: &'static str = "failed to load asset from source";

/// Why importing an asset failed.
#[derive(Debug)]
pub enum ImportError {
    /// The byte source could not resolve the asset's name; holds its error.
    Source(amethyst_error::Error),
    /// The format could not turn the bytes into data; holds its error as it was reported.
    Format(amethyst_error::Error),
}

impl ImportError {
    /// True when the byte source failed.
    pub fn is_source(&self) -> (r: bool)
        ensures
            r <==> self is Source,
    {
        match self {
            ImportError::Source(_) => true,
            ImportError::Format(_) => false,
        }
    }

    /// The error that caused this one: the byte source's or the format's.
    pub fn cause(&self) -> (r: &amethyst_error::Error)
        ensures
            match *self {
                ImportError::Source(e) => *r == e,
                ImportError::Format(e) => *r == e,
            },
    {
        match self {
            ImportError::Source(e) => e,
            ImportError::Format(e) => e,
        }
    }

    /// Turns this into the engine's error: a failure of the byte source gets a
    /// message of its own with the source's error as its cause; a failure of the
    /// format is handed on as it was.
    pub fn into_error(self) -> (r: amethyst_error::Error)
        ensures
            self matches ImportError::Source(e) ==> source_of(r) == Some(e) && message_of(r)
                == SOURCE_FAILURE@,
            self matches ImportError::Format(e) ==> r == e,
    {
        match self {
            ImportError::Source(e) => caused_by(message_error(SOURCE_FAILURE), e),
            ImportError::Format(e) => e,
        }
    }
}

} // verus!
