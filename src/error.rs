use vstd::prelude::*;

verus! {

/// A reply or a stored record whose shape is not the one expected.
#[derive(Debug, Clone, Copy, PartialEq, Eq, Structural)]
pub enum DecodeError {
    /// The reply is not a sequence.
    NotASequence,
    /// The reply is an empty sequence, without a count.
    MissingCount,
    /// The first element cannot be read as an unsigned count.
    CountNotNumeric,
    /// A record identifier cannot be read as text.
    IdNotText,
    /// An identifier is the last element, with no field list after it.
    MissingFieldList,
    /// What follows an identifier is not a sequence.
    FieldListNotSequence,
    /// A field list ends with a key that has no value.
    OddFieldList,
    /// A field name cannot be read as text.
    KeyNotText,
    /// The value of `title` cannot be read as text.
    TitleNotText,
    /// The value of `score` is a sequence, not a scalar.
    ScoreNotScalar,
    /// A stored-record lookup found nothing.
    RecordNotFound,
    /// A stored-record lookup found more than one record.
    AmbiguousRecord,
}

/// What the library's operations report.
#[derive(Debug, Clone, PartialEq, Eq)]
pub enum Error {
    Decode(DecodeError),
    /// A text that names no variant of an enumeration; it holds the text as given.
    UnknownVariant(String),
    /// A similarity query was asked for a record with no stored vector.
    MissingEmbedding,
    /// A similarity query was asked for with an empty vector.
    EmptyVector,
}

} // verus!
