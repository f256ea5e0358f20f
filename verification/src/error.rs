//! The library's error type and result alias.
use vstd::prelude::*;

verus! {

/// Failure kinds raised by the library's own logic.  Transport, filesystem
/// and environment failures are handled by the binary around the library and
/// never appear here.
#[derive(Debug, PartialEq)]
pub enum LinkError {
    /// A credential was built with required fields missing; the payload lists
    /// the missing field names in their fixed declaration order.
    UserBuildError { value: Vec<String> },
    /// A builder other than the credential builder was missing a field.
    BuildError,
    /// The service answered a status other than success to an authorization
    /// or query call.
    AuthError,
    /// No stored link matched the requested name.
    MissingLink,
    /// A response body that had to be JSON could not be parsed.
    JsonError,
    /// A storage report was requested over an empty sample set.
    EmptyReport,
}

/// The fixed description of each failure kind.
pub open spec fn message_of(e: LinkError) -> Seq<char> {
    match e {
        LinkError::UserBuildError { .. } => "Value not provided for required fields."@,
        LinkError::BuildError => "Required values not provided."@,
        LinkError::AuthError => "Authorization failed."@,
        LinkError::MissingLink => "No link stored under the requested name."@,
        LinkError::JsonError => "Conversion to JSON failed."@,
        LinkError::EmptyReport => "Cannot report on an empty set of samples."@,
    }
}

impl LinkError {
    /// A short description of the failure, for the binary to print.
    pub fn message(&self) -> (r: String)
        ensures
            r@ == message_of(*self),
    {
        match self {
            LinkError::UserBuildError { .. } => "Value not provided for required fields.".to_owned(),
            LinkError::BuildError => "Required values not provided.".to_owned(),
            LinkError::AuthError => "Authorization failed.".to_owned(),
            LinkError::MissingLink => "No link stored under the requested name.".to_owned(),
            LinkError::JsonError => "Conversion to JSON failed.".to_owned(),
            LinkError::EmptyReport => "Cannot report on an empty set of samples.".to_owned(),
        }
    }
}

/// Alias for results carrying a [`LinkError`].
pub type LinkResult<T> = Result<T, LinkError>;

} // verus!
