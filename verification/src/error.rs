//! Why a raw document could not be decoded.

use vstd::prelude::*;
use crate::raw::{Json, Raw};

verus! {

/// The first failure met while decoding. Each one ends the decoding: no
/// partial result is handed out.
#[derive(Debug, PartialEq, Eq)]
pub enum DecodeError {
    /// The discriminant `tag` names no variant of the union `location`.
    UnknownVariant { tag: String, location: String },
    /// The object of type `container` lacks the required field `field`.
    MissingField { field: String, container: String },
    /// The value `found` at `field` is not of the shape `expected`.
    TypeMismatch { field: String, expected: String, found: Raw },
}

/// The model of a `DecodeError`.
pub enum DecodeErrorView {
    UnknownVariant { tag: Seq<char>, location: Seq<char> },
    MissingField { field: Seq<char>, container: Seq<char> },
    TypeMismatch { field: Seq<char>, expected: Seq<char>, found: Json },
}

impl View for DecodeError {
    type V = DecodeErrorView;

    open spec fn view(&self) -> DecodeErrorView {
        match self {
            DecodeError::UnknownVariant { tag, location } => DecodeErrorView::UnknownVariant {
                tag: tag@,
                location: location@,
            },
            DecodeError::MissingField { field, container } => DecodeErrorView::MissingField {
                field: field@,
                container: container@,
            },
            DecodeError::TypeMismatch { field, expected, found } => DecodeErrorView::TypeMismatch {
                field: field@,
                expected: expected@,
                found: found@,
            },
        }
    }
}

/// What decoding yields, in terms of models.
pub type Decoded<T> = Result<T, DecodeErrorView>;

/// The model of an outcome whose value has a model of its own.
pub open spec fn view_of<T: View>(r: Result<T, DecodeError>) -> Decoded<T::V> {
    match r {
        Ok(v) => Ok(v@),
        Err(e) => Err(e@),
    }
}

/// The model of an outcome whose value is plain.
pub open spec fn plain_of<T>(r: Result<T, DecodeError>) -> Decoded<T> {
    match r {
        Ok(v) => Ok(v),
        Err(e) => Err(e@),
    }
}

/// The error for a tag that names no variant.
pub open spec fn unknown_variant(tag: Seq<char>, location: Seq<char>) -> DecodeErrorView {
    DecodeErrorView::UnknownVariant { tag, location }
}

/// The error for a required field that is absent.
pub open spec fn missing_field(field: Seq<char>, container: Seq<char>) -> DecodeErrorView {
    DecodeErrorView::MissingField { field, container }
}

/// The error for a value of the wrong shape.
pub open spec fn type_mismatch(
    field: Seq<char>,
    expected: Seq<char>,
    found: Json,
) -> DecodeErrorView {
    DecodeErrorView::TypeMismatch { field, expected, found }
}

impl DecodeError {
    /// The error for a tag that names no variant.
    pub fn unknown(tag: &str, location: &str) -> (e: DecodeError)
        ensures
            e@ == unknown_variant(tag@, location@),
    {
        DecodeError::UnknownVariant { tag: tag.to_owned(), location: location.to_owned() }
    }

    /// The error for a required field that is absent.
    pub fn missing(field: &str, container: &str) -> (e: DecodeError)
        ensures
            e@ == missing_field(field@, container@),
    {
        DecodeError::MissingField { field: field.to_owned(), container: container.to_owned() }
    }

    /// The error for a value of the wrong shape; it keeps a copy of the value.
    pub fn mismatch(field: &str, expected: &str, found: &Raw) -> (e: DecodeError)
        ensures
            e@ == type_mismatch(field@, expected@, found@),
    {
        DecodeError::TypeMismatch {
            field: field.to_owned(),
            expected: expected.to_owned(),
            found: found.duplicate(),
        }
    }
}

} // verus!
