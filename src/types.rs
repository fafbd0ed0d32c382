//! The bodies of the auxiliary endpoints and of error replies.

use crate::attestation::{unavailable_text, AttestationError};
use crate::encoding::{hex_encode, hex_text};
use crate::error::{error_text, status_of, EnclaveError};
use crate::signing::{get_public_key_hex, EphemeralKeyPair};
use vstd::prelude::*;

verus! {

/// Health probe body.
pub struct HealthResponse {
    pub status: String,
    pub timestamp: u64,
    pub version: String,
}

/// Attestation body: the document in hex, or the reason it is missing.
pub struct AttestationResponse {
    pub attestation: String,
    pub timestamp: u64,
}

/// Public key export body.
pub struct PublicKeyResponse {
    pub public_key: String,
    pub format: String,
}

/// Error body.
pub struct ErrorResponse {
    pub error: String,
}

/// The health probe's reply at `timestamp` (seconds).
pub fn health_response(timestamp: u64) -> (r: HealthResponse)
    ensures
        r.status@ == "healthy"@,
        r.timestamp == timestamp,
        r.version@ == "1.0.0"@,
{
    HealthResponse {
        status: String::from_str("healthy"),
        timestamp,
        version: String::from_str("1.0.0"),
    }
}

/// The public key export: the identity's public key in hex.
pub fn public_key_response(keypair: &EphemeralKeyPair) -> (r: PublicKeyResponse)
    ensures
        r.public_key@ == hex_text(keypair.public()),
        r.format@ == "ed25519-hex"@,
{
    PublicKeyResponse {
        public_key: get_public_key_hex(keypair),
        format: String::from_str("ed25519-hex"),
    }
}

/// The attestation endpoint's status and body at `timestamp` (ms): 200 with
/// the document in hex, or 503 when attestation is unavailable.
pub fn attestation_response(doc: &Result<Vec<u8>, AttestationError>, timestamp: u64) -> (r: (u16, AttestationResponse))
    ensures
        r.1.timestamp == timestamp,
        doc matches Ok(d) ==> (r.0 == 200 && r.1.attestation@ == hex_text(d@)),
        doc is Err ==> (r.0 == 503 && r.1.attestation@ == unavailable_text()),
{
    match doc {
        Ok(d) => (200, AttestationResponse { attestation: hex_encode(d), timestamp }),
        Err(_) => (
            503,
            AttestationResponse {
                attestation: String::from_str("Attestation not available in development mode"),
                timestamp,
            },
        ),
    }
}

/// The status and body an error is reported with.
pub fn error_response(e: &EnclaveError) -> (r: (u16, ErrorResponse))
    ensures
        r.0 == status_of(*e),
        r.1.error@ == error_text(*e),
{
    (e.status_code(), ErrorResponse { error: e.message() })
}

/// The reply to a request for an unknown route.
pub fn not_found_response() -> (r: (u16, ErrorResponse))
    ensures
        r.0 == 404,
        r.1.error@ == "Not found"@,
{
    (404, ErrorResponse { error: String::from_str("Not found") })
}

} // verus!
