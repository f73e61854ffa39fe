//! What a proving call hands back: a proof with its public-input digest, or
//! an error, together with the time the call took.

use crate::inputs::RequestDefect;
use vstd::prelude::*;

verus! {

/// Why a proving call produced no proof.
#[derive(Debug, PartialEq, Eq)]
pub enum ProofError {
    /// No verification key was loaded when the proof was asked for.
    NoVerificationKey,
    /// The request was refused before anything was serialised.
    MalformedRequest(RequestDefect),
    /// The request could not be rendered into a payload.
    SerializationFailure,
    /// The backend failed or timed out; the text is the backend's own.
    BackendFailure(String),
}

/// A [`ProofError`] as a mathematical value.
pub enum ProofErrorView {
    NoVerificationKey,
    MalformedRequest(RequestDefect),
    SerializationFailure,
    BackendFailure(Seq<char>),
}

impl ProofErrorView {
    /// The text shown for this error. But for a backend failure, which
    /// carries the backend's own text, it is one of a few fixed sentences.
    pub open spec fn message(self) -> Seq<char> {
        match self {
            ProofErrorView::NoVerificationKey => "Program verification key not set"@,
            ProofErrorView::MalformedRequest(defect) => defect.message(),
            ProofErrorView::SerializationFailure => "Failed to serialize inputs"@,
            ProofErrorView::BackendFailure(text) => text,
        }
    }
}

impl View for ProofError {
    type V = ProofErrorView;

    open spec fn view(&self) -> ProofErrorView {
        match self {
            ProofError::NoVerificationKey => ProofErrorView::NoVerificationKey,
            ProofError::MalformedRequest(defect) => ProofErrorView::MalformedRequest(*defect),
            ProofError::SerializationFailure => ProofErrorView::SerializationFailure,
            ProofError::BackendFailure(text) => ProofErrorView::BackendFailure(text@),
        }
    }
}

impl Clone for ProofError {
    fn clone(&self) -> (copy: ProofError)
        ensures
            copy@ == self@,
    {
        match self {
            ProofError::NoVerificationKey => ProofError::NoVerificationKey,
            ProofError::MalformedRequest(defect) => ProofError::MalformedRequest(*defect),
            ProofError::SerializationFailure => ProofError::SerializationFailure,
            ProofError::BackendFailure(text) => ProofError::BackendFailure(text.clone()),
        }
    }
}

impl ProofError {
    /// A line fit to log.
    pub fn to_message(&self) -> (text: String)
        ensures
            text@ == self@.message(),
    {
        match self {
            ProofError::NoVerificationKey => "Program verification key not set".to_owned(),
            ProofError::MalformedRequest(defect) => defect.to_message(),
            ProofError::SerializationFailure => "Failed to serialize inputs".to_owned(),
            ProofError::BackendFailure(text) => text.clone(),
        }
    }
}

/// The two things a proving call can end in.
pub enum OutcomeView {
    Proved { proof: Seq<char>, public_inputs: Seq<char> },
    Failed { error: ProofErrorView },
}

/// A [`ProofResult`] as a mathematical value.
pub struct ProofResultView {
    pub outcome: OutcomeView,
    pub generation_time_ms: u64,
}

impl ProofResultView {
    /// A result that carries a proof.
    pub open spec fn proved(
        proof: Seq<char>,
        public_inputs: Seq<char>,
        generation_time_ms: u64,
    ) -> ProofResultView {
        ProofResultView {
            outcome: OutcomeView::Proved { proof, public_inputs },
            generation_time_ms,
        }
    }

    /// A result that carries an error.
    pub open spec fn failed(error: ProofErrorView, generation_time_ms: u64) -> ProofResultView {
        ProofResultView { outcome: OutcomeView::Failed { error }, generation_time_ms }
    }

    pub open spec fn success(self) -> bool {
        self.outcome is Proved
    }

    pub open spec fn proof_hex(self) -> Option<Seq<char>> {
        match self.outcome {
            OutcomeView::Proved { proof, .. } => Some(proof),
            OutcomeView::Failed { .. } => None,
        }
    }

    pub open spec fn public_inputs(self) -> Option<Seq<char>> {
        match self.outcome {
            OutcomeView::Proved { public_inputs, .. } => Some(public_inputs),
            OutcomeView::Failed { .. } => None,
        }
    }

    pub open spec fn error_kind(self) -> Option<ProofErrorView> {
        match self.outcome {
            OutcomeView::Proved { .. } => None,
            OutcomeView::Failed { error } => Some(error),
        }
    }

    pub open spec fn error(self) -> Option<Seq<char>> {
        match self.outcome {
            OutcomeView::Proved { .. } => None,
            OutcomeView::Failed { error } => Some(error.message()),
        }
    }
}

/// Every result is of exactly one of two shapes: a proof and its public
/// inputs with no error, or an error with neither proof nor public inputs.
pub proof fn lemma_exactly_one_outcome(result: ProofResultView)
    ensures
        (result.success() && result.proof_hex() is Some && result.public_inputs() is Some
            && result.error() is None && result.error_kind() is None) || (!result.success()
            && result.proof_hex() is None && result.public_inputs() is None && result.error() is Some
            && result.error_kind() is Some),
{
}

#[derive(Debug)]
enum Outcome {
    Proved { proof: String, public_inputs: String },
    Failed { error: ProofError },
}

/// The outcome of one proving call. It holds either a proof with its
/// public-input digest or an error: the two cannot be mixed, and one of them
/// is always there.
#[derive(Debug)]
pub struct ProofResult {
    outcome: Outcome,
    generation_time_ms: u64,
}

impl View for ProofResult {
    type V = ProofResultView;

    closed spec fn view(&self) -> ProofResultView {
        ProofResultView {
            outcome: match self.outcome {
                Outcome::Proved { proof, public_inputs } => OutcomeView::Proved {
                    proof: proof@,
                    public_inputs: public_inputs@,
                },
                Outcome::Failed { error } => OutcomeView::Failed { error: error@ },
            },
            generation_time_ms: self.generation_time_ms,
        }
    }
}

impl ProofResult {
    /// A result that carries a proof and the digest of its public inputs.
    pub fn proved(proof: String, public_inputs: String, generation_time_ms: u64) -> (result:
        ProofResult)
        ensures
            result@ == ProofResultView::proved(proof@, public_inputs@, generation_time_ms),
    {
        ProofResult { outcome: Outcome::Proved { proof, public_inputs }, generation_time_ms }
    }

    /// A result that carries an error.
    pub fn failed(error: ProofError, generation_time_ms: u64) -> (result: ProofResult)
        ensures
            result@ == ProofResultView::failed(error@, generation_time_ms),
    {
        ProofResult { outcome: Outcome::Failed { error }, generation_time_ms }
    }

    /// Whether a proof was produced.
    pub fn success(&self) -> (success: bool)
        ensures
            success == self@.success(),
    {
        match &self.outcome {
            Outcome::Proved { .. } => true,
            Outcome::Failed { .. } => false,
        }
    }

    /// The proof, present exactly on success.
    pub fn proof_hex(&self) -> (proof: Option<String>)
        ensures
            proof is Some <==> self@.success(),
            proof matches Some(text) ==> self@.proof_hex() == Some(text@),
    {
        match &self.outcome {
            Outcome::Proved { proof, .. } => Some(proof.clone()),
            Outcome::Failed { .. } => None,
        }
    }

    /// The digest of the public inputs, present exactly on success.
    pub fn public_inputs(&self) -> (public_inputs: Option<String>)
        ensures
            public_inputs is Some <==> self@.success(),
            public_inputs matches Some(text) ==> self@.public_inputs() == Some(text@),
    {
        match &self.outcome {
            Outcome::Proved { public_inputs, .. } => Some(public_inputs.clone()),
            Outcome::Failed { .. } => None,
        }
    }

    /// How long the call took, in milliseconds.
    pub fn generation_time_ms(&self) -> (elapsed: u64)
        ensures
            elapsed == self@.generation_time_ms,
    {
        self.generation_time_ms
    }

    /// The error's text, present exactly on failure.
    pub fn error(&self) -> (error: Option<String>)
        ensures
            error is Some <==> !self@.success(),
            error matches Some(text) ==> self@.error() == Some(text@),
    {
        match &self.outcome {
            Outcome::Proved { .. } => None,
            Outcome::Failed { error } => Some(error.to_message()),
        }
    }

    /// The error itself, present exactly on failure.
    pub fn error_kind(&self) -> (error: Option<ProofError>)
        ensures
            error is Some <==> !self@.success(),
            error matches Some(kind) ==> self@.error_kind() == Some(kind@),
    {
        match &self.outcome {
            Outcome::Proved { .. } => None,
            Outcome::Failed { error } => Some(error.clone()),
        }
    }
}

} // verus!
