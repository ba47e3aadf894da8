//! The error taxonomy of the core.

use vstd::prelude::*;
use crate::document::{DocumentId, Header};

verus! {

/// An error surfaced by the core.
///
/// Only `Conflict` is ever handled locally, and only inside the entry
/// orchestrator while retry budget remains; every other variant aborts the
/// current operation and is returned to the caller untouched.  Absence of a
/// document is never an error: it is an explicit empty result.
#[derive(Debug)]
pub enum Error {
    /// A write was rejected because the revision it presented no longer
    /// matches the stored one.  Carries the collection's name and the
    /// header the store currently holds.
    Conflict { collection: String, header: Header },
    /// A write targeted a document that does not exist.
    DocumentNotFound { collection: String, id: DocumentId },
    /// Bytes crossing the connection boundary were malformed; fatal for
    /// the call that produced it.
    Serialization { message: String },
    /// The store echoed a numeric value incompatible with the requested
    /// numeric subtype: a protocol violation, treated as fatal.
    TypeMismatch,
    /// An opaque transport error, propagated unchanged.
    Transport { message: String },
}

/// An error from inserting a document, handing the caller back the
/// contents whose insertion failed.
#[derive(Debug)]
pub struct InsertError<T> {
    /// The original value being inserted.
    pub contents: T,
    /// The error that occurred while inserting.
    pub error: Error,
}

} // verus!
