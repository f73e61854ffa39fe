//! The values a proof request is made of. All of them are immutable once
//! built: the fields are private and read through getters.

use vstd::prelude::*;

verus! {

/// What [`PrivateInputs`] holds, as mathematical values.
pub struct PrivateInputsView {
    pub amount: u64,
    pub r: Seq<char>,
    pub sk_spend: Seq<char>,
    pub leaf_index: u32,
    pub merkle_path_elements: Seq<Seq<char>>,
    pub merkle_path_indices: Seq<u32>,
}

/// What [`PublicInputs`] holds, as mathematical values.
pub struct PublicInputsView {
    pub root: Seq<char>,
    pub nf: Seq<char>,
    pub outputs_hash: Seq<char>,
    pub amount: u64,
}

/// What [`Output`] holds, as mathematical values.
pub struct OutputView {
    pub address: Seq<char>,
    pub amount: u64,
}

/// What [`ProofInputs`] holds, as mathematical values.
pub struct ProofInputsView {
    pub private_inputs: PrivateInputsView,
    pub public_inputs: PublicInputsView,
    pub outputs: Seq<OutputView>,
}

/// The first thing found wrong with a proof request.
#[derive(Debug, Clone, Copy, PartialEq, Eq, Structural)]
pub enum RequestDefect {
    /// The Merkle path has a different number of sibling hashes and of
    /// direction bits.
    PathLengthMismatch,
    /// The Merkle path is empty, yet the leaf is not the one at position zero.
    InconsistentLeafIndex,
    /// The public amount differs from the amount of the note being spent.
    AmountMismatch,
    /// The output amounts do not add up to the public amount.
    OutputTotalMismatch,
}

impl RequestDefect {
    /// The text shown for this defect. It names no value of the request.
    pub open spec fn message(self) -> Seq<char> {
        match self {
            RequestDefect::PathLengthMismatch => {
                "Malformed proof request: Merkle path elements and indices differ in length"@
            },
            RequestDefect::InconsistentLeafIndex => {
                "Malformed proof request: empty Merkle path with a nonzero leaf index"@
            },
            RequestDefect::AmountMismatch => {
                "Malformed proof request: public amount differs from the note amount"@
            },
            RequestDefect::OutputTotalMismatch => {
                "Malformed proof request: output amounts do not add up to the public amount"@
            },
        }
    }

    /// A line fit to log.
    pub fn to_message(&self) -> (text: String)
        ensures
            text@ == self.message(),
    {
        let text = match self {
            RequestDefect::PathLengthMismatch => {
                "Malformed proof request: Merkle path elements and indices differ in length"
            },
            RequestDefect::InconsistentLeafIndex => {
                "Malformed proof request: empty Merkle path with a nonzero leaf index"
            },
            RequestDefect::AmountMismatch => {
                "Malformed proof request: public amount differs from the note amount"
            },
            RequestDefect::OutputTotalMismatch => {
                "Malformed proof request: output amounts do not add up to the public amount"
            },
        };
        text.to_owned()
    }
}

/// The sum of the amounts of a sequence of outputs.
pub open spec fn total_amount(outputs: Seq<OutputView>) -> int
    decreases outputs.len(),
{
    if outputs.len() == 0 {
        0
    } else {
        total_amount(outputs.drop_last()) + outputs.last().amount
    }
}

impl PrivateInputsView {
    /// The two halves of the Merkle path have the same length.
    pub open spec fn well_formed(self) -> bool {
        self.merkle_path_elements.len() == self.merkle_path_indices.len()
    }
}

impl ProofInputsView {
    /// The first defect of the request, in the order in which they are
    /// looked for, or nothing where the request is valid.
    pub open spec fn defect(self) -> Option<RequestDefect> {
        if !self.private_inputs.well_formed() {
            Some(RequestDefect::PathLengthMismatch)
        } else if self.private_inputs.merkle_path_elements.len() == 0
            && self.private_inputs.leaf_index != 0 {
            Some(RequestDefect::InconsistentLeafIndex)
        } else if self.public_inputs.amount != self.private_inputs.amount {
            Some(RequestDefect::AmountMismatch)
        } else if total_amount(self.outputs) != self.public_inputs.amount {
            Some(RequestDefect::OutputTotalMismatch)
        } else {
            None
        }
    }

    /// The request has no defect.
    pub open spec fn is_valid(self) -> bool {
        self.defect() is None
    }
}

/// The note being spent and its Merkle inclusion path. None of this is
/// ever part of a result or of an error message.
pub struct PrivateInputs {
    amount: u64,
    r: String,
    sk_spend: String,
    leaf_index: u32,
    merkle_path_elements: Vec<String>,
    merkle_path_indices: Vec<u32>,
}

/// What the proof claims in public.
pub struct PublicInputs {
    root: String,
    nf: String,
    outputs_hash: String,
    amount: u64,
}

/// One recipient and the amount it receives.
pub struct Output {
    address: String,
    amount: u64,
}

/// A proof request: the private inputs, the public inputs and the outputs in
/// their order.
pub struct ProofInputs {
    private_inputs: PrivateInputs,
    public_inputs: PublicInputs,
    outputs: Vec<Output>,
}

impl View for PrivateInputs {
    type V = PrivateInputsView;

    closed spec fn view(&self) -> PrivateInputsView {
        PrivateInputsView {
            amount: self.amount,
            r: self.r@,
            sk_spend: self.sk_spend@,
            leaf_index: self.leaf_index,
            merkle_path_elements: self.merkle_path_elements.deep_view(),
            merkle_path_indices: self.merkle_path_indices@,
        }
    }
}

impl View for PublicInputs {
    type V = PublicInputsView;

    closed spec fn view(&self) -> PublicInputsView {
        PublicInputsView {
            root: self.root@,
            nf: self.nf@,
            outputs_hash: self.outputs_hash@,
            amount: self.amount,
        }
    }
}

impl View for Output {
    type V = OutputView;

    closed spec fn view(&self) -> OutputView {
        OutputView { address: self.address@, amount: self.amount }
    }
}

impl View for ProofInputs {
    type V = ProofInputsView;

    closed spec fn view(&self) -> ProofInputsView {
        ProofInputsView {
            private_inputs: self.private_inputs@,
            public_inputs: self.public_inputs@,
            outputs: self.outputs@.map_values(|o: Output| o@),
        }
    }
}

impl PrivateInputs {
    /// Builds the private inputs from their parts. The two halves of the
    /// Merkle path are taken as given; a request whose halves differ in
    /// length is refused when a proof is asked for.
    pub fn new(
        amount: u64,
        r: String,
        sk_spend: String,
        leaf_index: u32,
        merkle_path_elements: Vec<String>,
        merkle_path_indices: Vec<u32>,
    ) -> (inputs: PrivateInputs)
        ensures
            inputs@ == (PrivateInputsView {
                amount,
                r: r@,
                sk_spend: sk_spend@,
                leaf_index,
                merkle_path_elements: merkle_path_elements.deep_view(),
                merkle_path_indices: merkle_path_indices@,
            }),
    {
        PrivateInputs {
            amount,
            r,
            sk_spend,
            leaf_index,
            merkle_path_elements,
            merkle_path_indices,
        }
    }

    /// The value of the note.
    pub fn amount(&self) -> (amount: u64)
        ensures
            amount == self@.amount,
    {
        self.amount
    }

    /// The blinding of the note's commitment.
    pub fn r(&self) -> (r: String)
        ensures
            r@ == self@.r,
    {
        self.r.clone()
    }

    /// The spending secret.
    pub fn sk_spend(&self) -> (sk_spend: String)
        ensures
            sk_spend@ == self@.sk_spend,
    {
        self.sk_spend.clone()
    }

    /// The position of the note's commitment in the tree.
    pub fn leaf_index(&self) -> (leaf_index: u32)
        ensures
            leaf_index == self@.leaf_index,
    {
        self.leaf_index
    }

    /// The sibling hashes of the Merkle path, leaf side first.
    pub fn merkle_path_elements(&self) -> (elements: Vec<String>)
        ensures
            elements.deep_view() == self@.merkle_path_elements,
    {
        let elements = self.merkle_path_elements.clone();
        assert(elements.deep_view() =~= self.merkle_path_elements.deep_view());
        elements
    }

    /// The direction bits of the Merkle path, leaf side first.
    pub fn merkle_path_indices(&self) -> (indices: Vec<u32>)
        ensures
            indices@ == self@.merkle_path_indices,
    {
        self.merkle_path_indices.clone()
    }

    /// Whether the two halves of the Merkle path have the same length.
    pub fn is_well_formed(&self) -> (ok: bool)
        ensures
            ok == self@.well_formed(),
    {
        self.merkle_path_elements.len() == self.merkle_path_indices.len()
    }
}

impl PublicInputs {
    /// Builds the public inputs from their parts.
    pub fn new(root: String, nf: String, outputs_hash: String, amount: u64) -> (inputs:
        PublicInputs)
        ensures
            inputs@ == (PublicInputsView {
                root: root@,
                nf: nf@,
                outputs_hash: outputs_hash@,
                amount,
            }),
    {
        PublicInputs { root, nf, outputs_hash, amount }
    }

    /// The Merkle root under which membership is claimed.
    pub fn root(&self) -> (root: String)
        ensures
            root@ == self@.root,
    {
        self.root.clone()
    }

    /// The nullifier of the note being spent.
    pub fn nf(&self) -> (nf: String)
        ensures
            nf@ == self@.nf,
    {
        self.nf.clone()
    }

    /// The commitment that binds the set of outputs.
    pub fn outputs_hash(&self) -> (outputs_hash: String)
        ensures
            outputs_hash@ == self@.outputs_hash,
    {
        self.outputs_hash.clone()
    }

    /// The value being proved.
    pub fn amount(&self) -> (amount: u64)
        ensures
            amount == self@.amount,
    {
        self.amount
    }
}

impl Output {
    /// Builds an output from its recipient and amount.
    pub fn new(address: String, amount: u64) -> (output: Output)
        ensures
            output@ == (OutputView { address: address@, amount }),
    {
        Output { address, amount }
    }

    /// The recipient.
    pub fn address(&self) -> (address: String)
        ensures
            address@ == self@.address,
    {
        self.address.clone()
    }

    /// The amount received.
    pub fn amount(&self) -> (amount: u64)
        ensures
            amount == self@.amount,
    {
        self.amount
    }
}

/// The sum of a sequence of outputs is at least the sum of any of its
/// prefixes.
pub proof fn lemma_total_amount_prefix(outputs: Seq<OutputView>, n: int)
    requires
        0 <= n <= outputs.len(),
    ensures
        0 <= total_amount(outputs.take(n)) <= total_amount(outputs),
    decreases outputs.len() - n,
{
    if n == outputs.len() {
        assert(outputs.take(n) =~= outputs);
        lemma_total_amount_nonnegative(outputs);
    } else {
        lemma_total_amount_prefix(outputs, n + 1);
        lemma_total_amount_nonnegative(outputs.take(n));
        assert(outputs.take(n + 1).drop_last() =~= outputs.take(n));
        assert(total_amount(outputs.take(n + 1)) == total_amount(outputs.take(n))
            + outputs.take(n + 1).last().amount);
    }
}

/// A sum of amounts is never negative.
pub proof fn lemma_total_amount_nonnegative(outputs: Seq<OutputView>)
    ensures
        0 <= total_amount(outputs),
    decreases outputs.len(),
{
    if outputs.len() > 0 {
        lemma_total_amount_nonnegative(outputs.drop_last());
    }
}

impl ProofInputs {
    /// Bundles one request. Nothing is checked here: see [`ProofInputs::defect`].
    pub fn new(
        private_inputs: PrivateInputs,
        public_inputs: PublicInputs,
        outputs: Vec<Output>,
    ) -> (inputs: ProofInputs)
        ensures
            inputs@ == (ProofInputsView {
                private_inputs: private_inputs@,
                public_inputs: public_inputs@,
                outputs: outputs@.map_values(|o: Output| o@),
            }),
    {
        ProofInputs { private_inputs, public_inputs, outputs }
    }

    /// The private inputs.
    pub fn private_inputs(&self) -> (private_inputs: &PrivateInputs)
        ensures
            private_inputs@ == self@.private_inputs,
    {
        &self.private_inputs
    }

    /// The public inputs.
    pub fn public_inputs(&self) -> (public_inputs: &PublicInputs)
        ensures
            public_inputs@ == self@.public_inputs,
    {
        &self.public_inputs
    }

    /// The outputs, in their order.
    pub fn outputs(&self) -> (outputs: &Vec<Output>)
        ensures
            outputs@.map_values(|o: Output| o@) == self@.outputs,
    {
        &self.outputs
    }

    /// Whether the output amounts add up to exactly `expected`.
    fn outputs_total_is(&self, expected: u64) -> (ok: bool)
        ensures
            ok == (total_amount(self@.outputs) == expected),
    {
        let ghost all = self@.outputs;
        let mut running: u64 = 0;
        let mut i: usize = 0;
        while i < self.outputs.len()
            invariant
                0 <= i <= self.outputs.len(),
                all == self@.outputs,
                all.len() == self.outputs.len(),
                running == total_amount(all.take(i as int)),
                running <= expected,
            decreases self.outputs.len() - i,
        {
            let amount = self.outputs[i].amount;
            proof {
                assert(all.take(i + 1).drop_last() =~= all.take(i as int));
                assert(all.take(i + 1).last() == self.outputs[i as int]@);
                lemma_total_amount_prefix(all, i + 1);
            }
            if amount > expected - running {
                return false;
            }
            running = running + amount;
            i = i + 1;
        }
        proof {
            assert(all.take(i as int) =~= all);
        }
        running == expected
    }

    /// Looks for what is wrong with the request: first the lengths of the two
    /// halves of the Merkle path, then an empty path with a leaf index other
    /// than zero, then the public amount against the note's amount, then the
    /// sum of the outputs against the public amount.
    pub fn defect(&self) -> (found: Option<RequestDefect>)
        ensures
            found == self@.defect(),
    {
        if !self.private_inputs.is_well_formed() {
            Some(RequestDefect::PathLengthMismatch)
        } else if self.private_inputs.merkle_path_elements.len() == 0
            && self.private_inputs.leaf_index != 0 {
            Some(RequestDefect::InconsistentLeafIndex)
        } else if self.public_inputs.amount != self.private_inputs.amount {
            Some(RequestDefect::AmountMismatch)
        } else if !self.outputs_total_is(self.public_inputs.amount) {
            Some(RequestDefect::OutputTotalMismatch)
        } else {
            None
        }
    }
}

} // verus!
