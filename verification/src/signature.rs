//! Checking the signature of a composition and of each component in it.
//!
//! The signatures are those of `wasmsign2`. The composition is checked as it
//! stands; each component below it is trimmed first to the bytes that were
//! signed. Every entry is checked on its own: one that fails does not keep
//! the others from being checked.

use vstd::prelude::*;
use crate::decompose::decomposition;
use crate::pipeline::{checked_bytes, is_target, reported_name, targets};

verus! {

/// Why a signature was not accepted.
pub enum SignatureError {
    /// The public key could not be read in any of the formats known.
    KeyUnreadable { reason: String },
    /// The bytes carry no signature that the key accepts.
    Rejected { reason: String },
}

/// How a signature check can end.
pub enum Verdict {
    Accepted,
    KeyUnreadable,
    Rejected,
}

/// `wasmsign2::WSError`: why a key was not read or a signature not accepted.
#[verifier::external_type_specification]
#[verifier::external_body]
pub struct ExWSError(wasmsign2::WSError);

/// Whether `wasmsign2` reads a public key from `key`.
pub uninterp spec fn public_key_parses(key: Seq<u8>) -> bool;

/// Whether `wasmsign2` finds in `bytes` a signature over them that the
/// public key read from `key` accepts.
pub uninterp spec fn signature_valid(bytes: Seq<u8>, key: Seq<u8>) -> bool;

/// How the check of `bytes` against `key` ends.
pub open spec fn signature_verdict(bytes: Seq<u8>, key: Seq<u8>) -> Verdict {
    if !public_key_parses(key) {
        Verdict::KeyUnreadable
    } else if signature_valid(bytes, key) {
        Verdict::Accepted
    } else {
        Verdict::Rejected
    }
}

/// The verdict that a recorded outcome stands for.
pub open spec fn verdict_of(outcome: Option<SignatureError>) -> Verdict {
    match outcome {
        None => Verdict::Accepted,
        Some(SignatureError::KeyUnreadable { .. }) => Verdict::KeyUnreadable,
        Some(SignatureError::Rejected { .. }) => Verdict::Rejected,
    }
}

/// Reads the key with `wasmsign2::PublicKey::from_any` and, where that
/// succeeds, checks `bytes` with `PublicKey::verify`, without a detached
/// signature.
///
/// Trusted: both calls depend on their bytes alone. The outer error is that
/// of reading the key, the inner one that of the check.
#[verifier::external_body]
pub(crate) fn check_signature(bytes: &[u8], key: &[u8]) -> (attempt: Result<
    Result<(), wasmsign2::WSError>,
    wasmsign2::WSError,
>)
    ensures
        attempt is Ok <==> public_key_parses(key@),
        attempt is Ok ==> (attempt->Ok_0 is Ok <==> signature_valid(bytes@, key@)),
{
    let public_key = wasmsign2::PublicKey::from_any(key)?;
    Ok(public_key.verify(&mut &bytes[..], None))
}

/// The message of a `wasmsign2::WSError`, as its `Display` gives it.
#[verifier::external_body]
pub(crate) fn describe(error: &wasmsign2::WSError) -> (reason: String) {
    error.to_string()
}

/// Checks the signature embedded in `bytes` against the public key in `key`.
///
/// The key may be in any format that `wasmsign2` reads. `Ok` is always
/// `Ok(true)`: a signature that is not accepted is an error.
pub fn verify(bytes: &[u8], key: &[u8]) -> (outcome: Result<bool, SignatureError>)
    ensures
        match outcome {
            Ok(accepted) => accepted && signature_verdict(bytes@, key@) is Accepted,
            Err(SignatureError::KeyUnreadable { .. }) => signature_verdict(bytes@, key@)
                is KeyUnreadable,
            Err(SignatureError::Rejected { .. }) => signature_verdict(bytes@, key@) is Rejected,
        },
{
    match check_signature(bytes, key) {
        Err(error) => Err(SignatureError::KeyUnreadable { reason: describe(&error) }),
        Ok(Err(error)) => Err(SignatureError::Rejected { reason: describe(&error) }),
        Ok(Ok(())) => Ok(true),
    }
}

/// Checks the signature of a composition and of each signed component in it.
///
/// The result has one entry for each entry of the decomposition, in its
/// order: the name, and `None` where the signature was accepted. The first
/// entry is the composition itself, checked as it stands under the name
/// "composition"; every other component is cleaned, then named and checked.
pub fn verify_signature(file_contents: &[u8], key: &[u8]) -> (verifications: Vec<
    (String, Option<SignatureError>),
>)
    ensures
        verifications@.len() == decomposition(file_contents@).len(),
        forall|at: int|
            0 <= at < verifications@.len() ==> {
                &&& (#[trigger] verifications@[at]).0@ == reported_name(
                    decomposition(file_contents@),
                    at,
                )
                &&& verdict_of(verifications@[at].1) == signature_verdict(
                    checked_bytes(decomposition(file_contents@), at),
                    key@,
                )
            },
{
    let targets = targets(file_contents);
    let ghost parts = decomposition(file_contents@);
    let mut verifications: Vec<(String, Option<SignatureError>)> = Vec::new();
    let mut next: usize = 0;
    while next < targets.len()
        invariant
            next <= targets.len(),
            targets@.len() == parts.len(),
            forall|at: int| 0 <= at < targets@.len() ==> is_target(#[trigger] targets@[at], parts, at),
            verifications@.len() == next,
            forall|at: int|
                0 <= at < next ==> {
                    &&& (#[trigger] verifications@[at]).0@ == reported_name(parts, at)
                    &&& verdict_of(verifications@[at].1) == signature_verdict(
                        checked_bytes(parts, at),
                        key@,
                    )
                },
        decreases targets.len() - next,
    {
        let target = &targets[next];
        let outcome = match verify(target.bytes.as_slice(), key) {
            Ok(_) => None,
            Err(error) => Some(error),
        };
        verifications.push((target.name.clone(), outcome));
        next += 1;
    }
    verifications
}

/// Whether every signature was accepted.
pub fn all_signatures_match(verifications: &Vec<(String, Option<SignatureError>)>) -> (all: bool)
    ensures
        all <==> forall|at: int|
            0 <= at < verifications@.len() ==> (#[trigger] verifications@[at]).1 is None,
{
    let mut next: usize = 0;
    while next < verifications.len()
        invariant
            next <= verifications.len(),
            forall|at: int| 0 <= at < next ==> (#[trigger] verifications@[at]).1 is None,
        decreases verifications.len() - next,
    {
        if verifications[next].1.is_some() {
            return false;
        }
        next += 1;
    }
    true
}

} // verus!
