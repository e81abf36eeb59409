//! The error taxonomy of the mapping layer.
//!
//! A fatal error spoils one query's mapping and nothing else; a
//! timestamp parse failure is recoverable and never escalates past the
//! one article it concerns.

use vstd::prelude::*;
use vstd::string::StringExecFns;

verus! {

/// The required fields whose absence or wrong shape is fatal for one
/// query's mapping.
#[derive(Clone, Copy, Debug, PartialEq, Eq, Structural)]
pub enum FieldName {
    Status,
    TotalResults,
    Articles,
    BestMatches,
}

/// The key under which a required field appears in the upstream payload.
pub open spec fn field_key(f: FieldName) -> Seq<char> {
    match f {
        FieldName::Status => "status"@,
        FieldName::TotalResults => "totalResults"@,
        FieldName::Articles => "articles"@,
        FieldName::BestMatches => "bestMatches"@,
    }
}

impl FieldName {
    /// The field's name as it appears in the upstream payload.
    pub fn text(&self) -> (r: &'static str)
        ensures
            r@ == field_key(*self),
    {
        match self {
            FieldName::Status => "status",
            FieldName::TotalResults => "totalResults",
            FieldName::Articles => "articles",
            FieldName::BestMatches => "bestMatches",
        }
    }
}

/// A fatal mapping error: the whole query's result is abandoned, other
/// queries are unaffected.
#[derive(Debug, PartialEq, Eq)]
pub enum MappingError {
    /// The raw payload was not syntactically valid JSON. The decoding
    /// collaborator reports this; the mappers themselves never produce it.
    Decode,
    /// The status field held a string outside the recognized vocabulary;
    /// carries the offending raw value.
    StatusParse(String),
    /// A required field was missing or of the wrong shape.
    FieldType(FieldName),
}

/// The mathematical model of a [`MappingError`].
pub enum MappingErrorView {
    Decode,
    StatusParse(Seq<char>),
    FieldType(FieldName),
}

impl View for MappingError {
    type V = MappingErrorView;

    open spec fn view(&self) -> MappingErrorView {
        match self {
            MappingError::Decode => MappingErrorView::Decode,
            MappingError::StatusParse(raw) => MappingErrorView::StatusParse(raw@),
            MappingError::FieldType(f) => MappingErrorView::FieldType(*f),
        }
    }
}

impl MappingError {
    /// A human-readable description with enough context to identify the
    /// offending status value or required field.
    pub fn message(&self) -> (r: String)
        ensures
            (match self@ {
                MappingErrorView::Decode => r@ == "invalid JSON payload"@,
                MappingErrorView::StatusParse(raw) => r@ == "status parsing failed: "@ + raw,
                MappingErrorView::FieldType(f) => r@ == "missing or mistyped field: "@
                    + field_key(f),
            }),
    {
        match self {
            MappingError::Decode => String::from_str("invalid JSON payload"),
            MappingError::StatusParse(raw) => {
                let mut s = String::from_str("status parsing failed: ");
                s.append(raw.as_str());
                s
            },
            MappingError::FieldType(f) => {
                let mut s = String::from_str("missing or mistyped field: ");
                s.append(f.text());
                s
            },
        }
    }
}

/// A recoverable, per-article defect: the publishedAt string did not
/// parse as RFC 3339. The caller keeps the raw string and leaves the
/// derived epoch unset.
#[derive(Debug, PartialEq, Eq)]
pub struct TimestampParseError {
    /// The string that failed to parse.
    pub raw: String,
}

} // verus!
