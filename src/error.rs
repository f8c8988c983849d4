//! Failures the access layer reports outward.
use vstd::prelude::*;

use crate::resp::{Response, CODE_ERROR};

verus! {

/// Why an access-layer operation did not succeed. An identifier collision is
/// retried internally and never shows up here.
#[derive(Clone, Copy, Debug, PartialEq, Eq, Structural)]
pub enum AccessError {
    /// The record to read or update does not exist.
    NotFound,
    /// The blog has no configuration record yet.
    Uninitialized,
    /// Installation was attempted after it already happened.
    AlreadyInstalled,
    /// Identifier allocation gave up after its bounded number of attempts.
    Exhausted,
    /// The store answered in a shape the operation cannot use.
    StoreFailure,
}

/// The text that reports `e`.
pub open spec fn error_message(e: AccessError) -> Seq<char> {
    match e {
        AccessError::NotFound => "not found"@,
        AccessError::Uninitialized => "Uninitialized blog info"@,
        AccessError::AlreadyInstalled => "repeat installation"@,
        AccessError::Exhausted => "no free identifier found"@,
        AccessError::StoreFailure => "unexpected store answer"@,
    }
}

impl AccessError {
    /// The text that reports this error.
    pub fn message(&self) -> (r: &'static str)
        ensures
            r@ == error_message(*self),
    {
        match self {
            AccessError::NotFound => "not found",
            AccessError::Uninitialized => "Uninitialized blog info",
            AccessError::AlreadyInstalled => "repeat installation",
            AccessError::Exhausted => "no free identifier found",
            AccessError::StoreFailure => "unexpected store answer",
        }
    }

    /// The failure answer that reports this error.
    pub fn to_response(&self) -> (r: Response<()>)
        ensures
            r.code == CODE_ERROR,
            r.message@ == error_message(*self),
    {
        Response::error(self.message())
    }
}

} // verus!
