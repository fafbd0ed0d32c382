//! The process-lifetime Ed25519 identity, signing, verification and hashing.

use crate::encoding::{hex_encode, hex_text, lemma_hex_text_len};
use fastcrypto::ed25519::{Ed25519KeyPair, Ed25519PublicKey, Ed25519Signature};
use fastcrypto::traits::{KeyPair, Signer, ToFromBytes, VerifyingKey};
use sha2::Digest;
use vstd::prelude::*;

verus! {

/// The Ed25519 public key of a 32-byte private key (seed).
pub uninterp spec fn ed25519_public_of(private_key: Seq<u8>) -> Seq<u8>;

/// The Ed25519 signature of `msg` under a 32-byte private key (seed).
pub uninterp spec fn ed25519_signature_of(private_key: Seq<u8>, msg: Seq<u8>) -> Seq<u8>;

/// Whether `sig` is a valid Ed25519 signature of `msg` under `public_key`.
pub uninterp spec fn ed25519_verifies(public_key: Seq<u8>, msg: Seq<u8>, sig: Seq<u8>) -> bool;

/// The SHA-256 digest of a byte string.
pub uninterp spec fn sha256_of(data: Seq<u8>) -> Seq<u8>;

/// Relies on fastcrypto's Ed25519KeyPair::generate, fed by rand::thread_rng
/// (a CSPRNG): a fresh private key, whose bytes are 32 long.
#[verifier::external_body]
fn fresh_private_key() -> (r: Vec<u8>)
    ensures
        r@.len() == 32,
{
    Ed25519KeyPair::generate(&mut rand::thread_rng()).as_bytes().to_vec()
}

/// Relies on fastcrypto's Ed25519KeyPair::from_bytes, which accepts any 32
/// bytes, and its `public()` key: the 32 bytes of the matching public key.
#[verifier::external_body]
fn derive_public_key(private_key: &Vec<u8>) -> (r: Vec<u8>)
    requires
        private_key@.len() == 32,
    ensures
        r@ == ed25519_public_of(private_key@),
        r@.len() == 32,
{
    Ed25519KeyPair::from_bytes(private_key).unwrap().public().as_bytes().to_vec()
}

/// Relies on fastcrypto's Signer::sign for Ed25519KeyPair: deterministic
/// 64-byte signatures, which verify under the matching public key.
#[verifier::external_body]
fn ed25519_sign(private_key: &Vec<u8>, msg: &[u8]) -> (r: Vec<u8>)
    requires
        private_key@.len() == 32,
    ensures
        r@ == ed25519_signature_of(private_key@, msg@),
        r@.len() == 64,
        ed25519_verifies(ed25519_public_of(private_key@), msg@, r@),
{
    Ed25519KeyPair::from_bytes(private_key).unwrap().sign(msg).as_ref().to_vec()
}

/// Relies on fastcrypto's VerifyingKey::verify for Ed25519PublicKey; bytes
/// that are no key or no signature do not verify.
#[verifier::external_body]
fn ed25519_verify(public_key: &[u8], msg: &[u8], sig: &[u8]) -> (r: bool)
    ensures
        r == ed25519_verifies(public_key@, msg@, sig@),
{
    match (Ed25519PublicKey::from_bytes(public_key), Ed25519Signature::from_bytes(sig)) {
        (Ok(pk), Ok(s)) => pk.verify(msg, &s).is_ok(),
        _ => false,
    }
}

/// Relies on sha2's Sha256::digest: the 32-byte SHA-256 digest.
#[verifier::external_body]
fn sha256(data: &[u8]) -> (r: Vec<u8>)
    ensures
        r@ == sha256_of(data@),
        r@.len() == 32,
{
    sha2::Sha256::digest(data).to_vec()
}

/// An ephemeral Ed25519 identity: generated once per process, never persisted.
pub struct EphemeralKeyPair {
    private_key: Vec<u8>,
    public_key: Vec<u8>,
}

impl EphemeralKeyPair {
    /// The private key (seed) bytes.
    pub closed spec fn secret(&self) -> Seq<u8> {
        self.private_key@
    }

    /// The public key bytes.
    pub closed spec fn public(&self) -> Seq<u8> {
        self.public_key@
    }

    /// A 32-byte private key held with its own public key.
    pub open spec fn wf(&self) -> bool {
        &&& self.secret().len() == 32
        &&& self.public() == ed25519_public_of(self.secret())
        &&& self.public().len() == 32
    }

    /// The public key as bytes.
    pub fn public_key_bytes(&self) -> (r: Vec<u8>)
        ensures
            r@ == self.public(),
    {
        self.public_key.clone()
    }
}

/// The identity whose private key (seed) is `seed`.
pub fn from_seed(seed: Vec<u8>) -> (kp: EphemeralKeyPair)
    requires
        seed@.len() == 32,
    ensures
        kp.wf(),
        kp.secret() == seed@,
{
    let public_key = derive_public_key(&seed);
    EphemeralKeyPair { private_key: seed, public_key }
}

/// Generates a fresh identity from the system's secure random source.
pub fn generate_keypair() -> (kp: EphemeralKeyPair)
    ensures
        kp.wf(),
{
    from_seed(fresh_private_key())
}

/// The public key as lowercase hex: 64 digits for a well-formed identity.
pub fn get_public_key_hex(keypair: &EphemeralKeyPair) -> (r: String)
    ensures
        r@ == hex_text(keypair.public()),
        r@.len() == 2 * keypair.public().len(),
        keypair.wf() ==> r@.len() == 64,
{
    let r = hex_encode(&keypair.public_key);
    proof {
        lemma_hex_text_len(keypair.public());
    }
    r
}

/// Signs `data` with the identity's private key.
pub fn sign_data(keypair: &EphemeralKeyPair, data: &[u8]) -> (r: Vec<u8>)
    requires
        keypair.wf(),
    ensures
        r@ == ed25519_signature_of(keypair.secret(), data@),
        r@.len() == 64,
        ed25519_verifies(keypair.public(), data@, r@),
{
    ed25519_sign(&keypair.private_key, data)
}

/// Checks an Ed25519 signature of `data` against a public key.
pub fn verify_signature(public_key: &[u8], data: &[u8], signature: &[u8]) -> (r: bool)
    ensures
        r == ed25519_verifies(public_key@, data@, signature@),
{
    ed25519_verify(public_key, data, signature)
}

/// The SHA-256 digest of `data`.
pub fn compute_hash(data: &[u8]) -> (r: Vec<u8>)
    ensures
        r@ == sha256_of(data@),
        r@.len() == 32,
{
    sha256(data)
}

/// The audit hash of a request input: `0x` and the lowercase hex of the
/// SHA-256 digest of the input's canonical JSON bytes.
pub open spec fn input_hash_text(input: Seq<u8>) -> Seq<char> {
    seq!['0', 'x'] + hex_text(sha256_of(input))
}

/// The audit hash of a request input, given its canonical JSON bytes.
pub fn compute_input_hash(input_bytes: &[u8]) -> (r: String)
    ensures
        r@ == input_hash_text(input_bytes@),
        r@.len() == 66,
{
    let digest = compute_hash(input_bytes);
    proof {
        lemma_hex_text_len(digest@);
    }
    let hex = hex_encode(&digest);
    let mut s = String::from_str("0x");
    s.append(hex.as_str());
    proof {
        reveal_strlit("0x");
    }
    assert(s@ =~= input_hash_text(input_bytes@));
    s
}

/// Input hashing is a function of the input bytes: equal canonical inputs
/// always give the same hash.
pub proof fn lemma_input_hash_deterministic(a: Seq<u8>, b: Seq<u8>)
    requires
        a == b,
    ensures
        input_hash_text(a) == input_hash_text(b),
{
}

} // verus!
