//! Why a transform is refused.

use vstd::prelude::*;

verus! {

/// `serde_json::Error`, the error that deserializing JSON text ends in.
///
/// A value of it is carried through as it comes; nothing is claimed of what
/// it holds.
#[verifier::external_type_specification]
#[verifier::external_body]
pub struct ExJsonError(serde_json::Error);

/// Why a transform is refused.
#[derive(Debug, Clone, Copy, PartialEq, Eq)]
pub enum TransformError {
    /// The configuration could not be deserialized.
    InvalidConfig,
}

impl TransformError {
    /// The message for this error.
    pub fn message(&self) -> (text: String)
        ensures
            text@ == "Invalid plugin config"@,
    {
        "Invalid plugin config".to_owned()
    }
}

impl From<serde_json::Error> for TransformError {
    /// Whatever the deserializer reported, the configuration is invalid.
    fn from(_error: serde_json::Error) -> (result: Self) {
        TransformError::InvalidConfig
    }
}

impl vstd::std_specs::convert::FromSpecImpl<serde_json::Error> for TransformError {
    open spec fn obeys_from_spec() -> bool {
        true
    }

    open spec fn from_spec(_error: serde_json::Error) -> Self {
        TransformError::InvalidConfig
    }
}

} // verus!
