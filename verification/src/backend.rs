//! A stand-in for the proving backend. It hashes what it is given and is
//! NOT a zero-knowledge prover: its "proof" proves nothing. It exists so
//! that the session can be exercised end to end without a real backend.

use crate::codec::{bytes_to_hex, hex_text};
use sha2::{Digest, Sha256};
use vstd::prelude::*;
use vstd::slice::slice_subrange;
use vstd::utf8::encode_utf8;

verus! {

/// The SHA-256 digest of a byte sequence.
pub uninterp spec fn sha256(data: Seq<u8>) -> Seq<u8>;

/// `Sha256::digest` of the `sha2` crate. The claim: the result depends on
/// the bytes alone and is 32 bytes long.
#[verifier::external_body]
fn sha256_digest(data: &[u8]) -> (digest: Vec<u8>)
    ensures
        digest@ == sha256(data@),
        digest@.len() == 32,
{
    Sha256::digest(data).to_vec()
}

/// The stand-in proof: the hexadecimal SHA-256 digest of the payload, the
/// verification key and a nonce, each as UTF-8, one after another.
pub open spec fn simulated_proof(
    payload: Seq<char>,
    verification_key: Seq<char>,
    nonce: Seq<char>,
) -> Seq<char> {
    hex_text(sha256(encode_utf8(payload) + encode_utf8(verification_key) + encode_utf8(nonce)))
}

/// The stand-in public-input digest: the first 16 bytes, in hexadecimal, of
/// the SHA-256 digest of a fixed label followed by the payload.
pub open spec fn simulated_public_inputs(payload: Seq<char>) -> Seq<char> {
    hex_text(
        sha256(encode_utf8("simulated_public_inputs"@) + encode_utf8(payload)).subrange(0, 16),
    )
}

/// Answers an invocation as a backend would, without proving anything.
/// The answer is always a success: 64 hexadecimal digits of "proof" and 32
/// of "public inputs". The nonce stands for the moment of the call; the
/// same three inputs give the same answer.
pub fn simulated_prove(payload: &str, verification_key: &str, nonce: &str) -> (reply: Result<
    (String, String),
    String,
>)
    ensures
        reply matches Ok((proof, public_inputs)) && proof@ == simulated_proof(
            payload@,
            verification_key@,
            nonce@,
        ) && public_inputs@ == simulated_public_inputs(payload@) && proof@.len() == 64
            && public_inputs@.len() == 32,
{
    let mut data: Vec<u8> = Vec::new();
    data.extend_from_slice(payload.as_bytes());
    data.extend_from_slice(verification_key.as_bytes());
    data.extend_from_slice(nonce.as_bytes());
    assert(data@ =~= encode_utf8(payload@) + encode_utf8(verification_key@) + encode_utf8(nonce@));
    let proof = bytes_to_hex(sha256_digest(data.as_slice()).as_slice());

    let mut labelled: Vec<u8> = Vec::new();
    labelled.extend_from_slice("simulated_public_inputs".as_bytes());
    labelled.extend_from_slice(payload.as_bytes());
    assert(labelled@ =~= encode_utf8("simulated_public_inputs"@) + encode_utf8(payload@));
    let digest = sha256_digest(labelled.as_slice());
    let public_inputs = bytes_to_hex(slice_subrange(digest.as_slice(), 0, 16));
    Ok((proof, public_inputs))
}

} // verus!
