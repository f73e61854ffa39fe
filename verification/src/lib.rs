//! Client-side proving session for shielded transactions.
//!
//! A [`SP1WasmProver`] holds at most one verification key. A proof request is
//! validated, rendered into a canonical payload and bound to the key that
//! is loaded at that moment; the backend's answer is then packaged into a
//! [`ProofResult`] that is either a proof with its public-input digest or an
//! error, never both and never neither.
//!
//! - [`inputs`]: the values a request is made of, and what can be wrong
//!   with a request.
//! - [`payload`]: the canonical JSON payload of a request;
//!   [`payload_proofs`]: why no two requests share a payload.
//! - [`prover`]: the session, its key, and the step from a request to a
//!   call of the backend and from the backend's answer to a result.
//! - [`outcome`]: results and errors.
//! - [`codec`]: hexadecimal text.
//! - [`backend`]: a stand-in backend that proves nothing.
//! - [`diagnostics`]: liveness and version.

pub mod backend;
pub mod codec;
pub mod diagnostics;
pub mod inputs;
pub mod outcome;
pub mod payload;
pub mod payload_proofs;
pub mod prover;

pub use backend::simulated_prove;
pub use codec::{bytes_to_hex, hex_to_bytes, HexError};
pub use diagnostics::{get_version, wasm_prover_health_check};
pub use inputs::{Output, PrivateInputs, ProofInputs, PublicInputs, RequestDefect};
pub use outcome::{ProofError, ProofResult};
pub use prover::{BackendCall, KeyError, ProofStep, SP1WasmProver};
