use wasm_prover::{get_version, wasm_prover_health_check};

#[test]
fn health_check_is_true() {
    assert!(wasm_prover_health_check());
    assert!(wasm_prover_health_check());
}

#[test]
fn version_is_the_release_identifier() {
    assert_eq!(get_version(), "0.1.0");
    assert_eq!(get_version(), get_version());
}
