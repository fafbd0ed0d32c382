//! Intent-scoped envelopes: every signed payload carries the kind of message
//! it is and its timestamp, and the signature covers all three.

use crate::encoding::{canonical_envelope_bytes, envelope_bytes, hex_encode, hex_text};
use crate::signing::{
    ed25519_signature_of, ed25519_verifies, sign_data, verify_signature, EphemeralKeyPair,
};
use vstd::prelude::*;

verus! {

/// The kinds of message the service signs; the kind is part of the signed
/// bytes, so a signature for one kind never stands for another.
#[derive(Debug, Clone, Copy, PartialEq, Eq, Structural)]
pub enum IntentScope {
    ProcessData,
    ParameterLoad,
}

/// The wire byte of a scope.
pub open spec fn scope_byte(scope: IntentScope) -> u8 {
    match scope {
        IntentScope::ProcessData => 0,
        IntentScope::ParameterLoad => 1,
    }
}

impl IntentScope {
    /// The wire byte of this scope.
    pub fn as_u8(&self) -> (r: u8)
        ensures
            r == scope_byte(*self),
    {
        match self {
            IntentScope::ProcessData => 0,
            IntentScope::ParameterLoad => 1,
        }
    }
}

/// A payload with its intent byte and timestamp: the unit that is signed.
pub struct IntentMessage<T> {
    pub intent: u8,
    pub timestamp_ms: u64,
    pub data: T,
}

impl<T> IntentMessage<T> {
    /// Wraps `data` under `scope` at `timestamp_ms`.
    pub fn new(data: T, timestamp_ms: u64, scope: IntentScope) -> (r: Self)
        ensures
            r.intent == scope_byte(scope),
            r.timestamp_ms == timestamp_ms,
            r.data == data,
    {
        IntentMessage { intent: scope.as_u8(), timestamp_ms, data }
    }
}

/// A response with the hex signature over its canonical bytes.
pub struct ProcessedDataResponse<T> {
    pub response: T,
    pub signature: String,
}

/// A request body: the payload under `payload`.
pub struct ProcessDataRequest<T> {
    pub payload: T,
}

/// The signature the identity with private key `secret` gives an envelope.
pub open spec fn envelope_signature(secret: Seq<u8>, intent: u8, timestamp_ms: u64, data: Seq<u8>) -> Seq<u8> {
    ed25519_signature_of(secret, envelope_bytes(intent, timestamp_ms, data))
}

/// Frames `data` under `scope` at `timestamp_ms` and signs the canonical
/// bytes of the whole envelope. `data_bytes` is the canonical (BCS) encoding
/// of `data`; the envelope itself is returned as it is, with the signature
/// in lowercase hex. The signature verifies under the identity's public key.
pub fn to_signed_response<T>(
    keypair: &EphemeralKeyPair,
    data: T,
    data_bytes: &Vec<u8>,
    timestamp_ms: u64,
    scope: IntentScope,
) -> (r: ProcessedDataResponse<IntentMessage<T>>)
    requires
        keypair.wf(),
    ensures
        r.response.intent == scope_byte(scope),
        r.response.timestamp_ms == timestamp_ms,
        r.response.data == data,
        r.signature@ == hex_text(
            envelope_signature(keypair.secret(), scope_byte(scope), timestamp_ms, data_bytes@),
        ),
        ed25519_verifies(
            keypair.public(),
            envelope_bytes(scope_byte(scope), timestamp_ms, data_bytes@),
            envelope_signature(keypair.secret(), scope_byte(scope), timestamp_ms, data_bytes@),
        ),
{
    let message = IntentMessage::new(data, timestamp_ms, scope);
    let bytes = canonical_envelope_bytes(message.intent, timestamp_ms, data_bytes);
    let signature = sign_data(keypair, bytes.as_slice());
    let signature_hex = hex_encode(&signature);
    ProcessedDataResponse { response: message, signature: signature_hex }
}

/// Checks a signature against the canonical re-encoding of an envelope.
pub fn verify_envelope(
    public_key: &[u8],
    intent: u8,
    timestamp_ms: u64,
    data_bytes: &Vec<u8>,
    signature: &[u8],
) -> (r: bool)
    ensures
        r == ed25519_verifies(public_key@, envelope_bytes(intent, timestamp_ms, data_bytes@), signature@),
{
    let bytes = canonical_envelope_bytes(intent, timestamp_ms, data_bytes);
    verify_signature(public_key, bytes.as_slice(), signature)
}

/// Domain separation: the bytes signed under one scope are never the bytes
/// of any envelope under another scope, whatever the timestamps and payloads.
pub proof fn lemma_scope_separation(a: IntentScope, b: IntentScope, timestamp_ms: u64, data: Seq<u8>)
    requires
        a != b,
    ensures
        forall|t: u64, d: Seq<u8>|
            #[trigger] envelope_bytes(scope_byte(b), t, d) != envelope_bytes(scope_byte(a), timestamp_ms, data),
{
    assert forall|t: u64, d: Seq<u8>|
        #[trigger] envelope_bytes(scope_byte(b), t, d) != envelope_bytes(scope_byte(a), timestamp_ms, data) by {
        if envelope_bytes(scope_byte(b), t, d) == envelope_bytes(scope_byte(a), timestamp_ms, data) {
            crate::encoding::lemma_envelope_bytes_injective(scope_byte(b), t, d, scope_byte(a), timestamp_ms, data);
        }
    }
}

/// Tampering: changing any single byte of an envelope's canonical bytes
/// gives bytes that are not that envelope's, and that, if they encode an
/// envelope at all, encode a different scope, timestamp or payload.
pub proof fn lemma_single_byte_change(intent: u8, timestamp_ms: u64, data: Seq<u8>, i: int, v: u8)
    requires
        0 <= i < envelope_bytes(intent, timestamp_ms, data).len(),
        v != envelope_bytes(intent, timestamp_ms, data)[i],
    ensures
        envelope_bytes(intent, timestamp_ms, data).update(i, v) != envelope_bytes(intent, timestamp_ms, data),
        forall|i2: u8, t2: u64, d2: Seq<u8>|
            #[trigger] envelope_bytes(i2, t2, d2) == envelope_bytes(intent, timestamp_ms, data).update(i, v)
                ==> (i2 != intent || t2 != timestamp_ms || d2 != data),
{
    let e = envelope_bytes(intent, timestamp_ms, data);
    assert(e.update(i, v)[i] == v);
}

} // verus!
