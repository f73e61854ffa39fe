use sha2::{Digest, Sha256};
use wasm_prover::simulated_prove;

#[test]
fn the_simulated_proof_is_the_digest_of_payload_key_and_nonce() {
    let (proof, public_inputs) = simulated_prove("{\"a\":1}", "deadbeef", "1700000000000").unwrap();

    let mut hasher = Sha256::new();
    hasher.update("{\"a\":1}".as_bytes());
    hasher.update("deadbeef".as_bytes());
    hasher.update("1700000000000");
    assert_eq!(proof, hex::encode(hasher.finalize()));

    let mut public_hasher = Sha256::new();
    public_hasher.update("simulated_public_inputs");
    public_hasher.update("{\"a\":1}".as_bytes());
    let digest = public_hasher.finalize();
    assert_eq!(public_inputs, hex::encode(&digest[..16]));
}

#[test]
fn the_simulated_proof_of_empty_inputs_is_the_digest_of_nothing() {
    let (proof, public_inputs) = simulated_prove("", "", "").unwrap();
    assert_eq!(proof, "e3b0c44298fc1c149afbf4c8996fb92427ae41e4649b934ca495991b7852b855");
    assert_eq!(public_inputs.len(), 32);
    assert_eq!(public_inputs, hex::encode(&Sha256::digest("simulated_public_inputs")[..16]));
}

#[test]
fn the_simulated_proof_of_abc() {
    // SHA-256("abc"), a published test vector, however the three characters are split.
    let expected = "ba7816bf8f01cfea414140de5dae2223b00361a396177a9cb410ff61f20015ad";
    assert_eq!(simulated_prove("abc", "", "").unwrap().0, expected);
    assert_eq!(simulated_prove("a", "b", "c").unwrap().0, expected);
    assert_eq!(simulated_prove("", "ab", "c").unwrap().0, expected);
}

#[test]
fn the_simulated_answer_has_fixed_lengths_and_is_lower_case_hex() {
    let (proof, public_inputs) = simulated_prove("payload é", "key", "nonce").unwrap();
    assert_eq!(proof.len(), 64);
    assert_eq!(public_inputs.len(), 32);
    assert!(proof.chars().all(|c| matches!(c, '0'..='9' | 'a'..='f')));
    assert!(public_inputs.chars().all(|c| matches!(c, '0'..='9' | 'a'..='f')));
}

#[test]
fn the_simulated_answer_depends_on_its_inputs_alone() {
    let first = simulated_prove("p", "k", "n").unwrap();
    let again = simulated_prove("p", "k", "n").unwrap();
    assert_eq!(first, again);
    assert_ne!(simulated_prove("p", "k", "m").unwrap().0, first.0);
    assert_ne!(simulated_prove("p", "j", "n").unwrap().0, first.0);
    assert_ne!(simulated_prove("q", "k", "n").unwrap().0, first.0);
    // the public inputs depend on the payload only
    assert_eq!(simulated_prove("p", "j", "m").unwrap().1, first.1);
    assert_ne!(simulated_prove("q", "k", "n").unwrap().1, first.1);
}
