use vstd::prelude::*;
use vstd::string::StringExecFns;

verus! {

/// The uniform error contract that the service presents upward.
///
/// Front ends map these kinds to transport-level codes; the library never
/// returns a raw status code.
#[derive(Debug)]
pub enum ServiceError {
    /// Malformed input the caller can fix: an empty upload payload,
    /// undecodable image bytes, an out-of-bounds crop rectangle, or an
    /// unsupported output format.
    ValidationError(String),
    /// The referenced image id has no catalog record.
    NotFound,
    /// The caller is not the owner of the referenced image.
    AccessDenied,
    /// The underlying store or catalog failed.
    StorageFailure(String),
    /// A uniqueness constraint was violated.
    Conflict,
}

impl ServiceError {
    /// A human-readable cause string for this error.
    pub fn message(&self) -> (r: String)
        ensures
            match self {
                ServiceError::ValidationError(m) => r@ == "validation error: "@ + m@,
                ServiceError::NotFound => r@ == "not found"@,
                ServiceError::AccessDenied => r@ == "access denied"@,
                ServiceError::StorageFailure(m) => r@ == "storage failure: "@ + m@,
                ServiceError::Conflict => r@ == "conflict"@,
            },
    {
        match self {
            ServiceError::ValidationError(m) => String::from_str("validation error: ").concat(m.as_str()),
            ServiceError::NotFound => String::from_str("not found"),
            ServiceError::AccessDenied => String::from_str("access denied"),
            ServiceError::StorageFailure(m) => String::from_str("storage failure: ").concat(m.as_str()),
            ServiceError::Conflict => String::from_str("conflict"),
        }
    }
}

} // verus!
