use wasm_prover::{KeyError, SP1WasmProver};

#[test]
fn a_new_session_has_no_key() {
    let prover = SP1WasmProver::new();
    assert!(!prover.is_ready());
    assert_eq!(prover.get_program_vk(), None);
}

#[test]
fn a_loaded_key_is_visible() {
    let mut prover = SP1WasmProver::new();
    assert_eq!(prover.set_program_vk("abc123"), Ok(()));
    assert!(prover.is_ready());
    assert_eq!(prover.get_program_vk(), Some("abc123".to_string()));
}

#[test]
fn the_empty_key_is_refused_and_the_previous_key_stays() {
    let mut prover = SP1WasmProver::new();
    assert_eq!(prover.set_program_vk("abc123"), Ok(()));
    assert_eq!(prover.set_program_vk(""), Err(KeyError::EmptyKey));
    assert!(prover.is_ready());
    assert_eq!(prover.get_program_vk(), Some("abc123".to_string()));
}

#[test]
fn the_empty_key_is_refused_on_a_fresh_session() {
    let mut prover = SP1WasmProver::new();
    assert_eq!(prover.set_program_vk(""), Err(KeyError::EmptyKey));
    assert!(!prover.is_ready());
    assert_eq!(prover.get_program_vk(), None);
}

#[test]
fn loading_again_replaces_the_key() {
    let mut prover = SP1WasmProver::new();
    assert_eq!(prover.set_program_vk("first"), Ok(()));
    assert_eq!(prover.set_program_vk("second"), Ok(()));
    assert_eq!(prover.get_program_vk(), Some("second".to_string()));
}

#[test]
fn a_key_is_stored_verbatim() {
    let mut prover = SP1WasmProver::new();
    let key = "  Not-Hex ключ \u{1F511}\n";
    assert_eq!(prover.set_program_vk(key), Ok(()));
    assert_eq!(prover.get_program_vk(), Some(key.to_string()));
    assert_eq!(prover.set_program_vk("k"), Ok(()));
    assert_eq!(prover.get_program_vk(), Some("k".to_string()));
}

#[test]
fn key_error_has_a_message() {
    assert_eq!(KeyError::EmptyKey.to_message(), "Program verification key is empty");
}
