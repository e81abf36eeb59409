//! The status interpreter: the upstream's free-text status field, read
//! against an exact two-word vocabulary.

use vstd::prelude::*;
use crate::error::MappingError;
use crate::error::MappingErrorView;
use crate::strutil::str_eq;

verus! {

/// A news query's outcome as the upstream API reported it.
#[derive(Clone, Copy, Debug, PartialEq, Eq, Structural)]
pub enum Status {
    Okay,
    Error,
}

/// What a raw status string means: `"ok"` and `"error"` are the only
/// recognized literals, matched exactly, with no trimming or folding.
pub open spec fn status_of(s: Seq<char>) -> Option<Status> {
    if s == "ok"@ {
        Some(Status::Okay)
    } else if s == "error"@ {
        Some(Status::Error)
    } else {
        None
    }
}

impl Status {
    /// Interpret the raw status field. Any string outside the recognized
    /// vocabulary fails, carrying the offending raw value: an upstream
    /// that changes its status words is a breaking error, never silently
    /// absorbed.
    pub fn parse(raw: &str) -> (r: Result<Status, MappingError>)
        ensures
            (match status_of(raw@) {
                Some(st) => r == Result::<Status, MappingError>::Ok(st),
                None => r matches Err(e) && e@ == MappingErrorView::StatusParse(raw@),
            }),
    {
        if str_eq(raw, "ok") {
            Ok(Status::Okay)
        } else if str_eq(raw, "error") {
            Ok(Status::Error)
        } else {
            Err(MappingError::StatusParse(raw.to_owned()))
        }
    }
}

} // verus!
