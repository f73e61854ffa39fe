//! The canonical payload: the JSON text of a proof request that is handed to
//! the backend. Objects list their members by name in ascending order and
//! nothing is written between tokens. Every request has a payload, and
//! different requests have different payloads.

use crate::codec::hex_digit;
use crate::inputs::{
    Output, OutputView, PrivateInputs, PrivateInputsView, ProofInputs, ProofInputsView,
    PublicInputs, PublicInputsView,
};
use crate::outcome::ProofError;
use vstd::prelude::*;
use vstd::string::*;

verus! {

/// What stands for one character inside a JSON string literal: a backslash
/// and a letter for the quotation mark, the backslash and five of the
/// control characters, `\u00` and two hexadecimal digits for the other
/// characters below the space, and the character itself otherwise.
pub open spec fn escaped_char(c: char) -> Seq<char> {
    if c == '\u{22}' {
        seq!['\u{5c}', '\u{22}']
    } else if c == '\u{5c}' {
        seq!['\u{5c}', '\u{5c}']
    } else if c == '\u{8}' {
        seq!['\u{5c}', 'b']
    } else if c == '\u{9}' {
        seq!['\u{5c}', 't']
    } else if c == '\u{a}' {
        seq!['\u{5c}', 'n']
    } else if c == '\u{c}' {
        seq!['\u{5c}', 'f']
    } else if c == '\u{d}' {
        seq!['\u{5c}', 'r']
    } else if (c as int) < 0x20 {
        seq!['\u{5c}', 'u', '0', '0', hex_digit(c as int / 16), hex_digit(c as int % 16)]
    } else {
        seq![c]
    }
}

/// What stands for a text inside a JSON string literal.
pub open spec fn escaped_text(text: Seq<char>) -> Seq<char>
    decreases text.len(),
{
    if text.len() == 0 {
        Seq::empty()
    } else {
        escaped_char(text[0]) + escaped_text(text.drop_first())
    }
}

/// The JSON string literal of a text: the escaped text between two
/// quotation marks.
pub open spec fn json_string_literal(text: Seq<char>) -> Seq<char> {
    seq!['\u{22}'] + escaped_text(text) + seq!['\u{22}']
}

/// `serde_json::Error`, carried from `serde_json::to_string` to where it is
/// mapped to [`ProofError`]. Nothing is claimed of it.
#[verifier::external_type_specification]
#[verifier::external_body]
pub struct ExJsonError(serde_json::Error);

/// `serde_json::to_string` on a `str`. The claim has two parts. It
/// succeeds: the only error it can pass on for a string is one of its
/// writer, and its writer is a `Vec<u8>`. And it returns the text between
/// two quotation marks with `"` and `\` written as `\"` and `\\`;
/// backspace, tab, line feed, form feed and carriage return as `\b`, `\t`,
/// `\n`, `\f` and `\r`; every other character below U+0020 as `\u00` and
/// two lower-case hexadecimal digits; and every other character, DEL and
/// all beyond ASCII included, as it is.
#[verifier::external_body]
fn json_quote(text: &str) -> (quoted: Result<String, serde_json::Error>)
    ensures
        quoted is Ok,
        quoted matches Ok(literal) ==> literal@ == json_string_literal(text@),
{
    serde_json::to_string(text)
}

/// `0` to `9`.
pub open spec fn is_decimal_digit(c: char) -> bool {
    '0' <= c && c <= '9'
}

/// The decimal digit for a value below ten.
pub open spec fn decimal_digit(d: nat) -> char {
    (d + 0x30) as char
}

/// A number in decimal, without sign or leading zeros.
pub open spec fn decimal_text(n: nat) -> Seq<char>
    decreases n,
{
    if n < 10 {
        seq![decimal_digit(n)]
    } else {
        decimal_text(n / 10).push(decimal_digit(n % 10))
    }
}

/// The items one after another, with a comma between neighbours.
pub open spec fn joined(items: Seq<Seq<char>>) -> Seq<char>
    decreases items.len(),
{
    if items.len() == 0 {
        Seq::empty()
    } else if items.len() == 1 {
        items[0]
    } else {
        joined(items.drop_last()) + ","@ + items.last()
    }
}

/// A JSON array of items that are JSON text already.
pub open spec fn array_text(items: Seq<Seq<char>>) -> Seq<char> {
    "["@ + joined(items) + "]"@
}

/// Each number in decimal.
pub open spec fn decimal_texts(numbers: Seq<u32>) -> Seq<Seq<char>> {
    numbers.map_values(|n: u32| decimal_text(n as nat))
}

/// Each text as a JSON string literal.
pub open spec fn quoted_texts(texts: Seq<Seq<char>>) -> Seq<Seq<char>> {
    texts.map_values(|t: Seq<char>| json_string_literal(t))
}

/// The object written for one output.
pub open spec fn output_text(output: OutputView) -> Seq<char> {
    "{\"address\":"@ + json_string_literal(output.address) + ",\"amount\":"@ + decimal_text(
        output.amount as nat,
    ) + "}"@
}

/// The object written for each output, in their order.
pub open spec fn output_texts(outputs: Seq<OutputView>) -> Seq<Seq<char>> {
    outputs.map_values(|o: OutputView| output_text(o))
}

/// The object written for the private inputs. The Merkle path is written
/// in full and in its order.
pub open spec fn private_inputs_text(inputs: PrivateInputsView) -> Seq<char> {
    "{\"amount\":"@ + decimal_text(inputs.amount as nat) + ",\"leaf_index\":"@ + decimal_text(
        inputs.leaf_index as nat,
    ) + ",\"merkle_path_elements\":"@ + array_text(quoted_texts(inputs.merkle_path_elements))
        + ",\"merkle_path_indices\":"@ + array_text(decimal_texts(inputs.merkle_path_indices))
        + ",\"r\":"@ + json_string_literal(inputs.r) + ",\"sk_spend\":"@ + json_string_literal(
        inputs.sk_spend,
    ) + "}"@
}

/// The object written for the public inputs.
pub open spec fn public_inputs_text(inputs: PublicInputsView) -> Seq<char> {
    "{\"amount\":"@ + decimal_text(inputs.amount as nat) + ",\"nf\":"@ + json_string_literal(
        inputs.nf,
    ) + ",\"outputs_hash\":"@ + json_string_literal(inputs.outputs_hash) + ",\"root\":"@
        + json_string_literal(inputs.root) + "}"@
}

/// The canonical payload of a request.
pub open spec fn canonical_payload(request: ProofInputsView) -> Seq<char> {
    "{\"outputs\":"@ + array_text(output_texts(request.outputs)) + ",\"private_inputs\":"@
        + private_inputs_text(request.private_inputs) + ",\"public_inputs\":"@
        + public_inputs_text(request.public_inputs) + "}"@
}

/// The text of one decimal digit.
fn digit_text(d: u64) -> (text: &'static str)
    requires
        d < 10,
    ensures
        text@ == seq![decimal_digit(d as nat)],
{
    proof {
        reveal_strlit("0");
        reveal_strlit("1");
        reveal_strlit("2");
        reveal_strlit("3");
        reveal_strlit("4");
        reveal_strlit("5");
        reveal_strlit("6");
        reveal_strlit("7");
        reveal_strlit("8");
        reveal_strlit("9");
    }
    let text = if d == 0 {
        "0"
    } else if d == 1 {
        "1"
    } else if d == 2 {
        "2"
    } else if d == 3 {
        "3"
    } else if d == 4 {
        "4"
    } else if d == 5 {
        "5"
    } else if d == 6 {
        "6"
    } else if d == 7 {
        "7"
    } else if d == 8 {
        "8"
    } else {
        "9"
    };
    assert(text@ =~= seq![decimal_digit(d as nat)]);
    text
}

/// Writes a number in decimal.
pub fn json_number(n: u64) -> (text: String)
    ensures
        text@ == decimal_text(n as nat),
    decreases n,
{
    if n < 10 {
        digit_text(n).to_owned()
    } else {
        let mut text = json_number(n / 10);
        text.append(digit_text(n % 10));
        assert(text@ =~= decimal_text(n as nat));
        text
    }
}

/// Writes a text as a JSON string literal.
pub fn json_string(text: &str) -> (quoted: Result<String, ProofError>)
    ensures
        quoted matches Ok(literal) && literal@ == json_string_literal(text@),
{
    match json_quote(text) {
        Ok(literal) => Ok(literal),
        Err(_) => Err(ProofError::SerializationFailure),
    }
}

/// Writes the items with a comma between neighbours.
fn json_join(items: &Vec<String>) -> (text: String)
    ensures
        text@ == joined(items.deep_view()),
{
    let ghost all = items.deep_view();
    let mut text = String::new();
    let mut i: usize = 0;
    while i < items.len()
        invariant
            0 <= i <= items.len(),
            all == items.deep_view(),
            all.len() == items.len(),
            text@ == joined(all.take(i as int)),
        decreases items.len() - i,
    {
        if i > 0 {
            text.append(",");
        }
        text.append(items[i].as_str());
        proof {
            let next = all.take(i + 1);
            assert(next.drop_last() =~= all.take(i as int));
            assert(next.last() == items[i as int]@);
            assert(text@ =~= joined(next));
        }
        i = i + 1;
    }
    proof {
        assert(all.take(i as int) =~= all);
    }
    text
}

/// Writes a JSON array of items that are JSON text already.
pub fn json_array(items: &Vec<String>) -> (text: String)
    ensures
        text@ == array_text(items.deep_view()),
{
    let mut text = "[".to_owned();
    text.append(json_join(items).as_str());
    text.append("]");
    text
}

/// Writes each number in decimal.
fn json_numbers(numbers: &Vec<u32>) -> (texts: Vec<String>)
    ensures
        texts.deep_view() == decimal_texts(numbers@),
{
    let mut texts: Vec<String> = Vec::new();
    let mut i: usize = 0;
    while i < numbers.len()
        invariant
            0 <= i <= numbers.len(),
            texts.len() == i,
            forall|k: int| 0 <= k < i ==> (#[trigger] texts[k])@ == decimal_text(numbers[k] as nat),
        decreases numbers.len() - i,
    {
        texts.push(json_number(numbers[i] as u64));
        i = i + 1;
    }
    assert(texts.deep_view() =~= decimal_texts(numbers@));
    texts
}

/// Writes each text as a JSON string literal.
fn json_strings(texts: &Vec<String>) -> (quoted: Result<Vec<String>, ProofError>)
    ensures
        quoted matches Ok(literals) && literals.deep_view() == quoted_texts(texts.deep_view()),
{
    let ghost all = texts.deep_view();
    let mut literals: Vec<String> = Vec::new();
    let mut i: usize = 0;
    while i < texts.len()
        invariant
            0 <= i <= texts.len(),
            all == texts.deep_view(),
            literals.len() == i,
            forall|k: int| 0 <= k < i ==> (#[trigger] literals[k])@ == json_string_literal(all[k]),
        decreases texts.len() - i,
    {
        match json_string(texts[i].as_str()) {
            Ok(literal) => {
                literals.push(literal);
            },
            Err(e) => {
                return Err(e);
            },
        }
        i = i + 1;
    }
    assert(literals.deep_view() =~= quoted_texts(all));
    Ok(literals)
}

/// Writes the object of one output.
fn output_object(output: &Output) -> (object: Result<String, ProofError>)
    ensures
        object matches Ok(text) && text@ == output_text(output@),
{
    let address = match json_string(output.address().as_str()) {
        Ok(literal) => literal,
        Err(e) => {
            return Err(e);
        },
    };
    let mut text = "{\"address\":".to_owned();
    text.append(address.as_str());
    text.append(",\"amount\":");
    text.append(json_number(output.amount()).as_str());
    text.append("}");
    Ok(text)
}

/// Writes the object of the private inputs.
fn private_inputs_object(inputs: &PrivateInputs) -> (object: Result<String, ProofError>)
    ensures
        object matches Ok(text) && text@ == private_inputs_text(inputs@),
{
    let elements = match json_strings(&inputs.merkle_path_elements()) {
        Ok(literals) => literals,
        Err(e) => {
            return Err(e);
        },
    };
    let r = match json_string(inputs.r().as_str()) {
        Ok(literal) => literal,
        Err(e) => {
            return Err(e);
        },
    };
    let sk_spend = match json_string(inputs.sk_spend().as_str()) {
        Ok(literal) => literal,
        Err(e) => {
            return Err(e);
        },
    };
    let mut text = "{\"amount\":".to_owned();
    text.append(json_number(inputs.amount()).as_str());
    text.append(",\"leaf_index\":");
    text.append(json_number(inputs.leaf_index() as u64).as_str());
    text.append(",\"merkle_path_elements\":");
    text.append(json_array(&elements).as_str());
    text.append(",\"merkle_path_indices\":");
    text.append(json_array(&json_numbers(&inputs.merkle_path_indices())).as_str());
    text.append(",\"r\":");
    text.append(r.as_str());
    text.append(",\"sk_spend\":");
    text.append(sk_spend.as_str());
    text.append("}");
    Ok(text)
}

/// Writes the object of the public inputs.
fn public_inputs_object(inputs: &PublicInputs) -> (object: Result<String, ProofError>)
    ensures
        object matches Ok(text) && text@ == public_inputs_text(inputs@),
{
    let nf = match json_string(inputs.nf().as_str()) {
        Ok(literal) => literal,
        Err(e) => {
            return Err(e);
        },
    };
    let outputs_hash = match json_string(inputs.outputs_hash().as_str()) {
        Ok(literal) => literal,
        Err(e) => {
            return Err(e);
        },
    };
    let root = match json_string(inputs.root().as_str()) {
        Ok(literal) => literal,
        Err(e) => {
            return Err(e);
        },
    };
    let mut text = "{\"amount\":".to_owned();
    text.append(json_number(inputs.amount()).as_str());
    text.append(",\"nf\":");
    text.append(nf.as_str());
    text.append(",\"outputs_hash\":");
    text.append(outputs_hash.as_str());
    text.append(",\"root\":");
    text.append(root.as_str());
    text.append("}");
    Ok(text)
}

/// Renders a request into its canonical payload. Every request has one:
/// the error type is there for the writer of string literals, which by its
/// signature may fail and on a string never does.
pub fn canonicalize(inputs: &ProofInputs) -> (payload: Result<String, ProofError>)
    ensures
        payload matches Ok(text) && text@ == canonical_payload(inputs@),
{
    let outputs = inputs.outputs();
    let mut objects: Vec<String> = Vec::new();
    let mut i: usize = 0;
    while i < outputs.len()
        invariant
            0 <= i <= outputs.len(),
            objects.len() == i,
            forall|k: int| 0 <= k < i ==> (#[trigger] objects[k])@ == output_text(outputs[k]@),
        decreases outputs.len() - i,
    {
        match output_object(&outputs[i]) {
            Ok(object) => {
                objects.push(object);
            },
            Err(e) => {
                return Err(e);
            },
        }
        i = i + 1;
    }
    assert(objects.deep_view() =~= output_texts(inputs@.outputs));
    let private = match private_inputs_object(inputs.private_inputs()) {
        Ok(object) => object,
        Err(e) => {
            return Err(e);
        },
    };
    let public = match public_inputs_object(inputs.public_inputs()) {
        Ok(object) => object,
        Err(e) => {
            return Err(e);
        },
    };
    let mut text = "{\"outputs\":".to_owned();
    text.append(json_array(&objects).as_str());
    text.append(",\"private_inputs\":");
    text.append(private.as_str());
    text.append(",\"public_inputs\":");
    text.append(public.as_str());
    text.append("}");
    Ok(text)
}

} // verus!
