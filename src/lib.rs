//! An attested inference gateway: ephemeral signing identity, intent-scoped
//! envelopes, input hashing, request validation and model dispatch.

pub mod attestation;
pub mod encoding;
pub mod error;
pub mod inference;
pub mod intent;
pub mod models;
pub mod signing;
pub mod types;

pub use attestation::{get_attestation_document, verify_pcrs, AttestationError};
pub use encoding::canonical_envelope_bytes;
pub use error::EnclaveError;
pub use inference::{
    build_inference_response, classify_lowered, run_inference, sentiment_prediction,
    try_cached_inference, validate, ComputationMetadata, InferenceOutcome, InferenceRequest,
    InferenceResponse, JobInput, SentimentInput, MNIST_PIXELS,
};
pub use intent::{
    to_signed_response, verify_envelope, IntentMessage, IntentScope, ProcessDataRequest,
    ProcessedDataResponse,
};
pub use models::{ModelKind, ModelLoader, ModelSource, ONNXModel};
pub use signing::{
    compute_hash, compute_input_hash, from_seed, generate_keypair, get_public_key_hex, sign_data,
    verify_signature, EphemeralKeyPair,
};
pub use types::{
    attestation_response, error_response, health_response, not_found_response,
    public_key_response, AttestationResponse, ErrorResponse, HealthResponse, PublicKeyResponse,
};

use vstd::prelude::*;

verus! {

/// State shared by every request handler.
pub struct AppState {
    /// The process-lifetime signing identity.
    pub eph_kp: EphemeralKeyPair,
}

impl AppState {
    /// State around the identity `eph_kp`.
    pub fn new(eph_kp: EphemeralKeyPair) -> (r: Self)
        ensures
            r.eph_kp == eph_kp,
    {
        AppState { eph_kp }
    }
}

} // verus!
