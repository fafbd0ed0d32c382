//! The attestation interface. No hardware attestation facility is wired in:
//! retrieval reports that it is unavailable, and a measurement check without
//! measurements is unavailable too, which is distinct from a failed check.

use vstd::prelude::*;

verus! {

/// Why no attestation document could be had.
#[derive(Debug)]
pub enum AttestationError {
    /// No attestation facility is reachable: nothing can be proved.
    Unavailable(String),
}

/// The message of an unavailable attestation facility.
pub open spec fn unavailable_text() -> Seq<char> {
    "Attestation not available in development mode"@
}

/// Retrieves the attestation document binding the identity to the measured
/// environment. Without an attestation facility this is always
/// `Unavailable`.
pub fn get_attestation_document() -> (r: Result<Vec<u8>, AttestationError>)
    ensures
        r matches Err(AttestationError::Unavailable(m)) && m@ == unavailable_text(),
{
    Err(AttestationError::Unavailable(String::from_str("Attestation not available in development mode")))
}

/// The measured platform registers equal the expected ones, register by
/// register.
pub open spec fn pcrs_match(expected: [Vec<u8>; 3], measured: [Vec<u8>; 3]) -> bool {
    &&& expected[0]@ == measured[0]@
    &&& expected[1]@ == measured[1]@
    &&& expected[2]@ == measured[2]@
}

/// Whether two byte strings are equal.
fn bytes_equal(a: &Vec<u8>, b: &Vec<u8>) -> (r: bool)
    ensures
        r == (a@ == b@),
{
    if a.len() != b.len() {
        return false;
    }
    let mut i: usize = 0;
    while i < a.len()
        invariant
            a@.len() == b@.len(),
            i <= a@.len(),
            forall|j: int| 0 <= j < i ==> a@[j] == b@[j],
        decreases a@.len() - i,
    {
        if a[i] != b[i] {
            return false;
        }
        i = i + 1;
    }
    assert(a@ =~= b@);
    true
}

/// Checks the platform measurements (PCRs) against the expected values.
/// `measured` holds what the attestation facility reported, or nothing when
/// no facility is reachable: then the check is `Unavailable`, which is not
/// a failed check. A reported set passes exactly when it equals the
/// expected one.
pub fn verify_pcrs(expected_pcrs: &[Vec<u8>; 3], measured: Option<&[Vec<u8>; 3]>) -> (r: Result<bool, AttestationError>)
    ensures
        measured is None ==> (r matches Err(AttestationError::Unavailable(m)) && m@ == unavailable_text()),
        measured matches Some(m) ==> r == Ok::<bool, AttestationError>(pcrs_match(*expected_pcrs, *m)),
{
    match measured {
        None => Err(AttestationError::Unavailable(String::from_str("Attestation not available in development mode"))),
        Some(m) => {
            let ok = bytes_equal(&expected_pcrs[0], &m[0]) && bytes_equal(&expected_pcrs[1], &m[1])
                && bytes_equal(&expected_pcrs[2], &m[2]);
            Ok(ok)
        },
    }
}

} // verus!
