//! The errors that parsing and serializing may return.

use vstd::prelude::*;

verus! {

/// Mathematical model of `Error`.
#[verifier::ext_equal]
pub enum ErrorView {
    Io(Seq<char>),
    Decode(Seq<char>),
    SchemaMismatch(Seq<char>),
    UnsupportedVersion { found: Seq<char>, required: Seq<char> },
    UnrecognizedTag(Seq<char>),
    Serialization(Seq<char>),
}

/// Errors that openapi functions may return.
#[derive(Debug, PartialEq)]
pub enum Error {
    /// Passed through from an I/O collaborator; never produced by this crate.
    Io(String),
    /// Malformed JSON or YAML text; carries the reader's message.
    Decode(String),
    /// A required field was missing, or a field had the wrong shape; carries
    /// the offending key.
    SchemaMismatch(String),
    /// The document names a specification version outside the supported
    /// range.
    UnsupportedVersion { found: String, required: String },
    /// A security scheme carried an unknown "type" tag; carries the tag.
    UnrecognizedTag(String),
    /// The in-memory model could not be encoded to text.
    Serialization(String),
}

impl View for Error {
    type V = ErrorView;

    open spec fn view(&self) -> ErrorView {
        match *self {
            Error::Io(ref m) => ErrorView::Io(m@),
            Error::Decode(ref m) => ErrorView::Decode(m@),
            Error::SchemaMismatch(ref k) => ErrorView::SchemaMismatch(k@),
            Error::UnsupportedVersion { ref found, ref required } => ErrorView::UnsupportedVersion {
                found: found@,
                required: required@,
            },
            Error::UnrecognizedTag(ref t) => ErrorView::UnrecognizedTag(t@),
            Error::Serialization(ref m) => ErrorView::Serialization(m@),
        }
    }
}

/// The view of a decode outcome: the payload's deep view on success, the
/// error's view on failure.
pub open spec fn rv<T: DeepView>(r: Result<T, Error>) -> Result<T::V, ErrorView> {
    match r {
        Ok(t) => Ok(t.deep_view()),
        Err(e) => Err(e@),
    }
}

} // verus!
