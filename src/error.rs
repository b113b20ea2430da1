use vstd::prelude::*;

verus! {

/// Why an identifier or an entity could not be built or read.
#[derive(Debug, PartialEq, Eq)]
pub enum Error {
    /// The text is not a syntactically valid 128-bit identifier.
    InvalidFormat,
    /// The identifier's version does not carry a Unix millisecond timestamp.
    MissingTimestamp,
    /// A field of an entity does not satisfy its rule.
    ValidationFailed { field: String, rule: String },
}

} // verus!
