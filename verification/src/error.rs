//! One tagged error taxonomy for the whole pipeline. Only `Subscription` is
//! fatal; every other variant is logged at the consumer loop and the event is
//! skipped.

use vstd::prelude::*;

verus! {

/// Which part of the front-matter schema a document failed against.
#[derive(Debug, Clone, Copy, PartialEq, Eq, Structural)]
pub enum SchemaField {
    /// The metadata block is not well-formed structured text at all.
    Syntax,
    Title,
    Outline,
    Author,
    Tags,
    Image,
    Kind,
    Genre,
}

/// Why a file failed before its metadata was even examined.
#[derive(Debug, Clone, Copy, PartialEq, Eq, Structural)]
pub enum MalformedKind {
    /// Splitting on the delimiter yields fewer than three segments;
    /// `length` is the character count of the text read.
    TooFewSegments { length: usize },
    /// The file's base name is not a canonical UUID.
    InvalidIdentifier,
}

#[derive(Debug, PartialEq)]
pub enum Error {
    /// The notification subscription is exhausted or broken; fatal.
    Subscription,
    /// The file could not be opened or read; recoverable.
    FileAccess { path: String },
    /// Wrong segment count or invalid identifier; recoverable.
    MalformedDocument { kind: MalformedKind },
    /// The metadata block fails validation or decoding; recoverable.
    Schema { field: SchemaField },
    /// The sink rejected or never received a submission; recoverable.
    Submission,
}

impl Error {
    /// Every variant but `Subscription` is logged and skipped.
    pub open spec fn is_recoverable(&self) -> bool {
        !(self is Subscription)
    }
}

} // verus!
