//! The proving session. It owns at most one verification key and decides,
//! for each request, whether the backend is to be invoked and with what.
//!
//! The session never waits. [`SP1WasmProver::generate_proof`] returns either
//! a finished result or a [`BackendCall`]; whoever runs the backend hands
//! its answer to [`BackendCall::complete`]. The call owns a copy of the key
//! that was loaded when it was made, so loading another key afterwards does
//! not change what an earlier call is bound to.

use crate::inputs::{ProofInputs, ProofInputsView, RequestDefect};
use crate::outcome::{ProofError, ProofErrorView, ProofResult, ProofResultView};
use crate::payload::{canonical_payload, canonicalize};
use crate::payload_proofs::lemma_canonical_payload_injective;
use vstd::prelude::*;

verus! {

/// Why a verification key was not loaded.
#[derive(Debug, Clone, Copy, PartialEq, Eq, Structural)]
pub enum KeyError {
    /// The key was the empty string.
    EmptyKey,
}

impl KeyError {
    /// The text shown for this error.
    pub open spec fn message(self) -> Seq<char> {
        "Program verification key is empty"@
    }

    /// A line fit to log.
    pub fn to_message(&self) -> (text: String)
        ensures
            text@ == self.message(),
    {
        "Program verification key is empty".to_owned()
    }
}

/// One invocation of the backend that is due: the canonical payload and the
/// verification key it is bound to. A call is made by
/// [`SP1WasmProver::generate_proof`] and by nothing else, so it always stands
/// for a valid request under a key that was loaded.
pub struct BackendCall {
    payload: String,
    verification_key: String,
}

/// A [`BackendCall`] as a mathematical value.
pub struct BackendCallView {
    pub payload: Seq<char>,
    pub verification_key: Seq<char>,
}

impl View for BackendCall {
    type V = BackendCallView;

    closed spec fn view(&self) -> BackendCallView {
        BackendCallView { payload: self.payload@, verification_key: self.verification_key@ }
    }
}

/// What is to happen next with a request.
pub enum ProofStep {
    /// The request ended without the backend: this is its result.
    Finished(ProofResult),
    /// The backend is to be invoked, once, with this call.
    Invoke(BackendCall),
}

/// A [`ProofStep`] as a mathematical value.
pub enum ProofStepView {
    Finished(ProofResultView),
    Invoke(BackendCallView),
}

impl View for ProofStep {
    type V = ProofStepView;

    open spec fn view(&self) -> ProofStepView {
        match self {
            ProofStep::Finished(result) => ProofStepView::Finished(result@),
            ProofStep::Invoke(call) => ProofStepView::Invoke(call@),
        }
    }
}

/// The milliseconds from `started_ms` to `finished_ms`, and zero where the
/// clock went backwards.
pub open spec fn elapsed_ms(started_ms: u64, finished_ms: u64) -> u64 {
    if finished_ms >= started_ms {
        (finished_ms - started_ms) as u64
    } else {
        0
    }
}

/// The backend's answer as a mathematical value.
pub open spec fn reply_view(reply: Result<(String, String), String>) -> Result<
    (Seq<char>, Seq<char>),
    Seq<char>,
> {
    match reply {
        Ok((proof, public_inputs)) => Ok((proof@, public_inputs@)),
        Err(text) => Err(text@),
    }
}

/// The result that a backend's answer is packaged into.
pub open spec fn packaged(
    reply: Result<(Seq<char>, Seq<char>), Seq<char>>,
    generation_time_ms: u64,
) -> ProofResultView {
    match reply {
        Ok((proof, public_inputs)) => ProofResultView::proved(
            proof,
            public_inputs,
            generation_time_ms,
        ),
        Err(text) => ProofResultView::failed(
            ProofErrorView::BackendFailure(text),
            generation_time_ms,
        ),
    }
}

/// What a session with the given key decides for a request. Without a key
/// the request fails at once. With one, a request with a defect is refused,
/// and every other request leads to one invocation of the backend, with
/// the canonical payload of the request and that key. A request that ends
/// here has taken no time.
pub open spec fn first_step(key: Option<Seq<char>>, request: ProofInputsView) -> ProofStepView {
    match key {
        None => ProofStepView::Finished(
            ProofResultView::failed(ProofErrorView::NoVerificationKey, 0),
        ),
        Some(verification_key) => match request.defect() {
            Some(defect) => ProofStepView::Finished(
                ProofResultView::failed(ProofErrorView::MalformedRequest(defect), 0),
            ),
            None => ProofStepView::Invoke(
                BackendCallView { payload: canonical_payload(request), verification_key },
            ),
        },
    }
}

/// Without a key every request fails with `NoVerificationKey`, whatever it
/// holds, and the backend is not invoked.
pub proof fn lemma_no_key_no_backend(request: ProofInputsView)
    ensures
        first_step(None, request) == ProofStepView::Finished(
            ProofResultView::failed(ProofErrorView::NoVerificationKey, 0),
        ),
        !(first_step(None, request) is Invoke),
{
}

/// With a key loaded, a request whose Merkle path has a different number
/// of sibling hashes and of direction bits fails with `MalformedRequest`,
/// and the backend is not invoked.
pub proof fn lemma_path_mismatch_no_backend(key: Seq<char>, request: ProofInputsView)
    requires
        request.private_inputs.merkle_path_elements.len()
            != request.private_inputs.merkle_path_indices.len(),
    ensures
        first_step(Some(key), request) == ProofStepView::Finished(
            ProofResultView::failed(
                ProofErrorView::MalformedRequest(RequestDefect::PathLengthMismatch),
                0,
            ),
        ),
        !(first_step(Some(key), request) is Invoke),
{
}

/// The backend is invoked only for a valid request and under a loaded key,
/// and then with the canonical payload of that request and with that key.
pub proof fn lemma_backend_only_when_valid(key: Option<Seq<char>>, request: ProofInputsView)
    ensures
        first_step(key, request) matches ProofStepView::Invoke(call) ==> key == Some(
            call.verification_key,
        ) && request.is_valid() && canonical_payload(request) == call.payload,
        first_step(key, request) matches ProofStepView::Finished(result) ==> !result.success(),
{
}

/// The text of an error that ends a request before the backend is one of
/// five fixed sentences. It holds no value of the request: no amount, no
/// secret, no randomness.
pub proof fn lemma_failure_text_is_fixed(key: Option<Seq<char>>, request: ProofInputsView)
    ensures
        first_step(key, request) matches ProofStepView::Finished(result) ==> {
            ||| result.error() == Some("Program verification key not set"@)
            ||| result.error() == Some(RequestDefect::PathLengthMismatch.message())
            ||| result.error() == Some(RequestDefect::InconsistentLeafIndex.message())
            ||| result.error() == Some(RequestDefect::AmountMismatch.message())
            ||| result.error() == Some(RequestDefect::OutputTotalMismatch.message())
        },
{
}

/// Two invocations with the same payload come from the same request,
/// whatever the keys: a payload can stand for its request.
pub proof fn lemma_payload_stands_for_request(
    first_key: Option<Seq<char>>,
    first: ProofInputsView,
    second_key: Option<Seq<char>>,
    second: ProofInputsView,
)
    requires
        first_step(first_key, first) matches ProofStepView::Invoke(a) && first_step(
            second_key,
            second,
        ) matches ProofStepView::Invoke(b) && a.payload == b.payload,
    ensures
        first == second,
{
    lemma_canonical_payload_injective(first, second);
}

/// Whatever the backend answers and whatever the clock readings, the
/// packaged result has a proof and public inputs and no error, or an error
/// and neither of the two.
pub proof fn lemma_packaged_is_uniform(
    reply: Result<(Seq<char>, Seq<char>), Seq<char>>,
    generation_time_ms: u64,
)
    ensures
        packaged(reply, generation_time_ms).success() <==> reply is Ok,
        packaged(reply, generation_time_ms).proof_hex() is Some <==> reply is Ok,
        packaged(reply, generation_time_ms).public_inputs() is Some <==> reply is Ok,
        packaged(reply, generation_time_ms).error() is Some <==> reply is Err,
        packaged(reply, generation_time_ms).generation_time_ms == generation_time_ms,
{
}

impl BackendCall {
    /// The canonical payload to hand to the backend.
    pub fn payload(&self) -> (payload: String)
        ensures
            payload@ == self@.payload,
    {
        self.payload.clone()
    }

    /// The verification key to hand to the backend.
    pub fn verification_key(&self) -> (verification_key: String)
        ensures
            verification_key@ == self@.verification_key,
    {
        self.verification_key.clone()
    }

    /// Packages the backend's answer to this call. A proof and its
    /// public-input digest become a success; an error text, a timeout
    /// included, becomes a failure. Either way the result carries the time
    /// between the two clock readings. The call is used up.
    pub fn complete(
        self,
        reply: Result<(String, String), String>,
        started_ms: u64,
        finished_ms: u64,
    ) -> (result: ProofResult)
        ensures
            result@ == packaged(reply_view(reply), elapsed_ms(started_ms, finished_ms)),
    {
        let generation_time_ms = if finished_ms >= started_ms {
            finished_ms - started_ms
        } else {
            0
        };
        match reply {
            Ok((proof, public_inputs)) => ProofResult::proved(
                proof,
                public_inputs,
                generation_time_ms,
            ),
            Err(text) => ProofResult::failed(ProofError::BackendFailure(text), generation_time_ms),
        }
    }
}

/// A proving session.
pub struct SP1WasmProver {
    program_vk: Option<String>,
}

impl View for SP1WasmProver {
    type V = Option<Seq<char>>;

    closed spec fn view(&self) -> Option<Seq<char>> {
        match self.program_vk {
            Some(key) => Some(key@),
            None => None,
        }
    }
}

impl SP1WasmProver {
    /// A session without a key.
    pub fn new() -> (prover: SP1WasmProver)
        ensures
            prover@ is None,
    {
        SP1WasmProver { program_vk: None }
    }

    /// Loads a verification key, in place of the one loaded before if there
    /// was one. The key is stored as it is given. The empty string is
    /// refused and leaves the session as it was.
    pub fn set_program_vk(&mut self, vk_hex: &str) -> (loaded: Result<(), KeyError>)
        ensures
            vk_hex@.len() == 0 ==> loaded == Err::<(), KeyError>(KeyError::EmptyKey)
                && final(self)@ == old(self)@,
            vk_hex@.len() > 0 ==> loaded is Ok && final(self)@ == Some(vk_hex@),
            old(self)@ is Some ==> final(self)@ is Some,
    {
        if vk_hex.is_empty() {
            return Err(KeyError::EmptyKey);
        }
        self.program_vk = Some(vk_hex.to_owned());
        Ok(())
    }

    /// Whether a key is loaded.
    pub fn is_ready(&self) -> (ready: bool)
        ensures
            ready == self@ is Some,
    {
        self.program_vk.is_some()
    }

    /// The key that is loaded, if any.
    pub fn get_program_vk(&self) -> (key: Option<String>)
        ensures
            key is Some <==> self@ is Some,
            key matches Some(text) ==> self@ == Some(text@),
    {
        match &self.program_vk {
            Some(key) => Some(key.clone()),
            None => None,
        }
    }

    /// Takes a request up to the point where the backend is needed. The key
    /// is looked for first, then the request is checked, then it is written
    /// as a payload; the call that comes back owns a copy of the key as it
    /// is now.
    pub fn generate_proof(&self, inputs: &ProofInputs) -> (step: ProofStep)
        ensures
            step@ == first_step(self@, inputs@),
            self@ is None ==> step@ == ProofStepView::Finished(
                ProofResultView::failed(ProofErrorView::NoVerificationKey, 0),
            ),
            self@ is Some && inputs@.defect() is Some ==> step@ == ProofStepView::Finished(
                ProofResultView::failed(
                    ProofErrorView::MalformedRequest(inputs@.defect().unwrap()),
                    0,
                ),
            ),
            step@ matches ProofStepView::Invoke(call) ==> self@ == Some(call.verification_key)
                && inputs@.is_valid() && canonical_payload(inputs@) == call.payload,
            step@ matches ProofStepView::Finished(result) ==> !result.success()
                && result.generation_time_ms == 0,
    {
        let verification_key = match &self.program_vk {
            Some(key) => key.clone(),
            None => {
                return ProofStep::Finished(ProofResult::failed(ProofError::NoVerificationKey, 0));
            },
        };
        match inputs.defect() {
            Some(defect) => ProofStep::Finished(
                ProofResult::failed(ProofError::MalformedRequest(defect), 0),
            ),
            None => match canonicalize(inputs) {
                Ok(payload) => ProofStep::Invoke(BackendCall { payload, verification_key }),
                Err(error) => ProofStep::Finished(ProofResult::failed(error, 0)),
            },
        }
    }
}

} // verus!
