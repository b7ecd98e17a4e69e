//! The errors of this library.

use crate::text::{has_prefix_at, push_str, string_of, to_chars};
use vstd::prelude::*;

verus! {

/// An error of the input and output of the system (`std::io::Error`). The
/// library carries such an error and never looks into it.
#[verifier::external_type_specification]
#[verifier::external_body]
pub struct ExIoError(std::io::Error);

/// Wrapper around errors that can potentially be produced by this library
#[non_exhaustive]
#[derive(Debug)]
pub enum Error {
    /// Error opening or creating a file
    FileIoError(std::io::Error),
    /// Error trying to recognise file type
    UnknownFileTypeError,
}

/// What a system error says of itself (its `Debug` form). The words depend
/// on the system, so nothing is stated of them.
#[verifier::external_body]
fn io_error_text(error: &std::io::Error) -> (r: String) {
    format!("{error:?}")
}

/// What is said of every error of reading or writing a file, before the
/// words of the system's own error.
pub open spec fn file_error_text() -> Seq<char> {
    "file i/o error occurred while trying to read or write from a file: "@
}

/// What is said where the format of a file cannot be told.
pub open spec fn unknown_type_text() -> Seq<char> {
    "could not detect file type automatically"@
}

/// Whether `text` is what the error `e` says. For an error of the system,
/// the words of that error itself are left open.
pub open spec fn says(e: Error, text: Seq<char>) -> bool {
    match e {
        Error::FileIoError(_) => has_prefix_at(text, 0, file_error_text()),
        Error::UnknownFileTypeError => text == unknown_type_text(),
    }
}

impl Error {
    /// What the error says.
    pub fn to_string(&self) -> (r: String)
        ensures
            says(*self, r@),
    {
        match self {
            Error::FileIoError(error) => {
                let mut out = to_chars(
                    "file i/o error occurred while trying to read or write from a file: ",
                );
                push_str(&mut out, io_error_text(error).as_str());
                assert(out@.subrange(0, file_error_text().len() as int) =~= file_error_text());
                string_of(&out)
            },
            Error::UnknownFileTypeError => string_of(
                &to_chars("could not detect file type automatically"),
            ),
        }
    }
}

impl vstd::std_specs::convert::FromSpecImpl<std::io::Error> for Error {
    open spec fn obeys_from_spec() -> bool {
        true
    }

    open spec fn from_spec(v: std::io::Error) -> Error {
        Error::FileIoError(v)
    }
}

impl From<std::io::Error> for Error {
    fn from(value: std::io::Error) -> Error {
        Error::FileIoError(value)
    }
}

} // verus!
