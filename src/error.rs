use vstd::prelude::*;

verus! {

/// Why an operation on users failed.
#[derive(Debug, PartialEq, Eq)]
pub enum DomainError {
    /// Caller-supplied data breaks a domain rule (a malformed email).
    Validation,
    /// No record carries the requested identifier.
    NotFound,
    /// The store was unavailable or refused the operation; the text says why.
    Storage(String),
}

impl Clone for DomainError {
    fn clone(&self) -> (r: Self)
        ensures
            r == *self,
    {
        match self {
            DomainError::Validation => DomainError::Validation,
            DomainError::NotFound => DomainError::NotFound,
            DomainError::Storage(cause) => DomainError::Storage(cause.clone()),
        }
    }
}

impl DomainError {
    /// A human-readable description of the failure.
    pub fn message(&self) -> (r: String)
        ensures
            self is Storage ==> r@ == self->Storage_0@,
            self is Validation ==> r@ == "Invalid email address"@,
            self is NotFound ==> r@ == "User not found"@,
    {
        match self {
            DomainError::Validation => "Invalid email address".to_string(),
            DomainError::NotFound => "User not found".to_string(),
            DomainError::Storage(cause) => cause.clone(),
        }
    }
}

} // verus!
