//! API-side errors and their mapping to a status code and message.

use vstd::prelude::*;
use vstd::string::*;

use crate::repository::RepositoryError;
use crate::validation::ValidationError;

verus! {

/// An API error: a validation failure (400), a repository failure (500),
/// or a missing entity (404).
#[derive(Debug)]
pub enum ApiError {
    Validation(ValidationError),
    Repository(RepositoryError),
    NotFound,
}

impl ApiError {
    /// The HTTP status this error maps to.
    pub open spec fn spec_status(&self) -> u16 {
        match self {
            ApiError::Validation(_) => 400,
            ApiError::Repository(_) => 500,
            ApiError::NotFound => 404,
        }
    }

    /// The message this error responds with.
    pub open spec fn spec_message(&self) -> Seq<char> {
        match self {
            ApiError::Validation(e) => e.0@,
            ApiError::Repository(e) => e.spec_message(),
            ApiError::NotFound => "not found"@,
        }
    }

    pub fn status_code(&self) -> (code: u16)
        ensures
            code == self.spec_status(),
    {
        match self {
            ApiError::Validation(_) => 400,
            ApiError::Repository(_) => 500,
            ApiError::NotFound => 404,
        }
    }

    pub fn message(&self) -> (m: String)
        ensures
            m@ == self.spec_message(),
    {
        match self {
            ApiError::Validation(e) => e.0.clone(),
            ApiError::Repository(e) => e.message(),
            ApiError::NotFound => String::from_str("not found"),
        }
    }
}

impl From<ValidationError> for ApiError {
    fn from(e: ValidationError) -> Self {
        ApiError::Validation(e)
    }
}

impl vstd::std_specs::convert::FromSpecImpl<ValidationError> for ApiError {
    open spec fn obeys_from_spec() -> bool {
        true
    }

    open spec fn from_spec(e: ValidationError) -> Self {
        ApiError::Validation(e)
    }
}

impl From<RepositoryError> for ApiError {
    fn from(e: RepositoryError) -> Self {
        ApiError::Repository(e)
    }
}

impl vstd::std_specs::convert::FromSpecImpl<RepositoryError> for ApiError {
    open spec fn obeys_from_spec() -> bool {
        true
    }

    open spec fn from_spec(e: RepositoryError) -> Self {
        ApiError::Repository(e)
    }
}

} // verus!
