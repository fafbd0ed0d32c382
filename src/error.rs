//! The error taxonomy of the gateway and its mapping to HTTP status classes.

use vstd::prelude::*;

verus! {

/// Every way a request can fail.
#[derive(Debug)]
pub enum EnclaveError {
    GenericError(String),
    ValidationError(String),
    ModelNotFound(String),
    InferenceError(String),
    SerializationError(String),
    CryptoError(String),
}

/// The HTTP status an error is reported with: 400 for a rejected request,
/// 404 for an unknown model, 500 for every internal failure.
pub open spec fn status_of(e: EnclaveError) -> u16 {
    match e {
        EnclaveError::ValidationError(_) => 400,
        EnclaveError::ModelNotFound(_) => 404,
        _ => 500,
    }
}

/// The text of the error body: the bare message for the two client errors,
/// the message behind its kind for the internal ones.
pub open spec fn error_text(e: EnclaveError) -> Seq<char> {
    match e {
        EnclaveError::ValidationError(m) => m@,
        EnclaveError::ModelNotFound(m) => m@,
        EnclaveError::GenericError(m) => "Generic error: "@ + m@,
        EnclaveError::InferenceError(m) => "Inference error: "@ + m@,
        EnclaveError::SerializationError(m) => "Serialization error: "@ + m@,
        EnclaveError::CryptoError(m) => "Cryptography error: "@ + m@,
    }
}

fn prefixed(prefix: &str, m: &String) -> (r: String)
    ensures
        r@ == prefix@ + m@,
{
    let mut s = String::from_str(prefix);
    s.append(m.as_str());
    s
}

impl EnclaveError {
    /// HTTP status code of this error.
    pub fn status_code(&self) -> (r: u16)
        ensures
            r == status_of(*self),
    {
        match self {
            EnclaveError::ValidationError(_) => 400,
            EnclaveError::ModelNotFound(_) => 404,
            _ => 500,
        }
    }

    /// Text of the JSON error body for this error.
    pub fn message(&self) -> (r: String)
        ensures
            r@ == error_text(*self),
    {
        match self {
            EnclaveError::ValidationError(m) => m.clone(),
            EnclaveError::ModelNotFound(m) => m.clone(),
            EnclaveError::GenericError(m) => prefixed("Generic error: ", m),
            EnclaveError::InferenceError(m) => prefixed("Inference error: ", m),
            EnclaveError::SerializationError(m) => prefixed("Serialization error: ", m),
            EnclaveError::CryptoError(m) => prefixed("Cryptography error: ", m),
        }
    }
}

} // verus!
