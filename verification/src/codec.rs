//! Hexadecimal text: two digits per byte, lower case when written, either
//! case when read.

use vstd::prelude::*;
use vstd::string::*;

verus! {

/// The lower-case hexadecimal digit for a value below sixteen.
pub open spec fn hex_digit(n: int) -> char {
    if n < 10 {
        (n + 0x30) as char
    } else {
        (n + 0x57) as char
    }
}

/// `0` to `9` and `a` to `f`.
pub open spec fn is_lower_hex_digit(c: char) -> bool {
    ('0' <= c && c <= '9') || ('a' <= c && c <= 'f')
}

/// The hexadecimal text of a byte sequence: for each byte its high digit,
/// then its low digit.
pub open spec fn hex_text(bytes: Seq<u8>) -> Seq<char> {
    Seq::new(
        2 * bytes.len(),
        |i: int|
            if i % 2 == 0 {
                hex_digit(bytes[i / 2] as int / 16)
            } else {
                hex_digit(bytes[i / 2] as int % 16)
            },
    )
}

/// The value of an ASCII code read as a hexadecimal digit of either case.
pub open spec fn nibble_of_byte(b: u8) -> Option<int> {
    if 0x30 <= b <= 0x39 {
        Some(b - 0x30)
    } else if 0x61 <= b <= 0x66 {
        Some(b - 0x61 + 10)
    } else if 0x41 <= b <= 0x46 {
        Some(b - 0x41 + 10)
    } else {
        None
    }
}

/// The value of a character read as a hexadecimal digit of either case.
pub open spec fn nibble_of_char(c: char) -> Option<int> {
    if '0' <= c && c <= '9' {
        Some(c as int - 0x30)
    } else if 'a' <= c && c <= 'f' {
        Some(c as int - 0x61 + 10)
    } else if 'A' <= c && c <= 'F' {
        Some(c as int - 0x41 + 10)
    } else {
        None
    }
}

/// Even length, and nothing but hexadecimal digits.
pub open spec fn is_hex_bytes(data: Seq<u8>) -> bool {
    &&& data.len() % 2 == 0
    &&& forall|i: int| 0 <= i < data.len() ==> (#[trigger] nibble_of_byte(data[i])) is Some
}

/// The bytes that well-formed hexadecimal ASCII codes stand for.
pub open spec fn bytes_of_hex_bytes(data: Seq<u8>) -> Seq<u8> {
    Seq::new(
        data.len() / 2,
        |i: int|
            (16 * nibble_of_byte(data[2 * i]).unwrap() + nibble_of_byte(
                data[2 * i + 1],
            ).unwrap()) as u8,
    )
}

/// Even length, and nothing but hexadecimal digits.
pub open spec fn is_hex_text(text: Seq<char>) -> bool {
    &&& text.len() % 2 == 0
    &&& forall|i: int| 0 <= i < text.len() ==> (#[trigger] nibble_of_char(text[i])) is Some
}

/// What hexadecimal text decodes to: the bytes it stands for, or nothing
/// where its length is odd or a character is no hexadecimal digit.
pub open spec fn hex_decoding(text: Seq<char>) -> Option<Seq<u8>> {
    if is_hex_text(text) {
        Some(
            Seq::new(
                text.len() / 2,
                |i: int|
                    (16 * nibble_of_char(text[2 * i]).unwrap() + nibble_of_char(
                        text[2 * i + 1],
                    ).unwrap()) as u8,
            ),
        )
    } else {
        None
    }
}

/// Why hexadecimal text could not be decoded.
#[derive(Debug, Clone, Copy, PartialEq, Eq, Structural)]
pub enum HexError {
    /// The text has odd length or holds a character that is no hexadecimal digit.
    MalformedHex,
}

impl HexError {
    /// The text shown for this error.
    pub open spec fn message(self) -> Seq<char> {
        "Invalid hex: odd length or a character that is not a hex digit"@
    }

    /// A line fit to log.
    pub fn to_message(&self) -> (text: String)
        ensures
            text@ == self.message(),
    {
        "Invalid hex: odd length or a character that is not a hex digit".to_owned()
    }
}

/// `hex::FromHexError`, carried from `hex::decode` to where it is mapped to
/// [`HexError`]. Nothing is claimed of it.
#[verifier::external_type_specification]
#[verifier::external_body]
pub struct ExFromHexError(hex::FromHexError);

/// `hex::encode` on a byte slice. The claim: the result has, for each byte in
/// order, the digit of its high four bits and then the digit of its low four
/// bits, both taken from `0123456789abcdef`.
#[verifier::external_body]
fn hex_encode(bytes: &[u8]) -> (text: String)
    ensures
        text@ == hex_text(bytes@),
{
    hex::encode(bytes)
}

/// `hex::decode` on a byte slice of ASCII codes. The claim: it succeeds
/// exactly when the length is even and every code is a digit `0`-`9`, `a`-`f`
/// or `A`-`F`, and then each pair of digits gives one byte, high digit first.
#[verifier::external_body]
fn hex_decode(data: &[u8]) -> (decoded: Result<Vec<u8>, hex::FromHexError>)
    ensures
        decoded is Ok <==> is_hex_bytes(data@),
        decoded matches Ok(bytes) ==> bytes@ == bytes_of_hex_bytes(data@),
{
    hex::decode(data)
}

/// Every digit that `hex_digit` yields is a lower-case hexadecimal digit and
/// reads back as the value it was made from.
pub proof fn lemma_hex_digit(n: int)
    requires
        0 <= n < 16,
    ensures
        is_lower_hex_digit(hex_digit(n)),
        nibble_of_char(hex_digit(n)) == Some(n),
{
}

/// Hexadecimal text is twice as long as the bytes and holds lower-case
/// hexadecimal digits only.
pub proof fn lemma_hex_text_shape(bytes: Seq<u8>)
    ensures
        hex_text(bytes).len() == 2 * bytes.len(),
        forall|i: int|
            0 <= i < hex_text(bytes).len() ==> is_lower_hex_digit(#[trigger] hex_text(bytes)[i]),
{
    assert forall|i: int| 0 <= i < hex_text(bytes).len() implies is_lower_hex_digit(
        #[trigger] hex_text(bytes)[i],
    ) by {
        let b = bytes[i / 2] as int;
        lemma_hex_digit(b / 16);
        lemma_hex_digit(b % 16);
    }
}

/// Decoding the hexadecimal text of any byte sequence gives the sequence back.
pub proof fn lemma_decode_encode_round_trip(bytes: Seq<u8>)
    ensures
        hex_decoding(hex_text(bytes)) == Some(bytes),
{
    let text = hex_text(bytes);
    assert forall|i: int| 0 <= i < text.len() implies (#[trigger] nibble_of_char(text[i]))
        is Some by {
        let b = bytes[i / 2] as int;
        lemma_hex_digit(b / 16);
        lemma_hex_digit(b % 16);
    }
    assert(is_hex_text(text));
    let back = hex_decoding(text).unwrap();
    assert forall|k: int| 0 <= k < bytes.len() implies back[k] == bytes[k] by {
        let b = bytes[k] as int;
        lemma_hex_digit(b / 16);
        lemma_hex_digit(b % 16);
        assert(text[2 * k] == hex_digit(b / 16));
        assert(text[2 * k + 1] == hex_digit(b % 16));
    }
    assert(back =~= bytes);
}

/// Encodes bytes as lower-case hexadecimal text, two digits per byte.
pub fn bytes_to_hex(bytes: &[u8]) -> (text: String)
    ensures
        text@ == hex_text(bytes@),
        text@.len() == 2 * bytes@.len(),
        forall|i: int| 0 <= i < text@.len() ==> is_lower_hex_digit(#[trigger] text@[i]),
        hex_decoding(text@) == Some(bytes@),
{
    proof {
        lemma_hex_text_shape(bytes@);
        lemma_decode_encode_round_trip(bytes@);
    }
    hex_encode(bytes)
}

/// Decodes hexadecimal text of either case into bytes. Text of odd length, or
/// with a character that is no hexadecimal digit, is refused.
pub fn hex_to_bytes(hex_str: &str) -> (decoded: Result<Vec<u8>, HexError>)
    ensures
        match decoded {
            Ok(bytes) => hex_decoding(hex_str@) == Some(bytes@),
            Err(e) => hex_decoding(hex_str@) is None && e == HexError::MalformedHex,
        },
{
    // A character beyond ASCII is no hexadecimal digit, and for ASCII text
    // the bytes handed to the decoder are the characters one for one.
    if !hex_str.is_ascii() {
        proof {
            let i = choose|i: int|
                0 <= i < hex_str@.len() && !('\0' <= #[trigger] hex_str@[i] <= '\u{7f}');
            assert(nibble_of_char(hex_str@[i]) is None);
        }
        return Err(HexError::MalformedHex);
    }
    let data = hex_str.as_bytes();
    proof {
        is_ascii_spec_bytes(hex_str);
        assert(data@.len() == hex_str@.len());
        assert forall|i: int| 0 <= i < data@.len() implies nibble_of_byte(#[trigger] data@[i])
            == nibble_of_char(hex_str@[i]) by {}
    }
    match hex_decode(data) {
        Ok(bytes) => {
            proof {
                assert forall|i: int| 0 <= i < hex_str@.len() implies (#[trigger] nibble_of_char(
                    hex_str@[i],
                )) is Some by {
                    assert(nibble_of_byte(data@[i]) is Some);
                }
                assert(bytes@ =~= hex_decoding(hex_str@).unwrap());
            }
            Ok(bytes)
        },
        Err(_) => {
            proof {
                if is_hex_text(hex_str@) {
                    assert forall|i: int| 0 <= i < data@.len() implies (#[trigger] nibble_of_byte(
                        data@[i],
                    )) is Some by {
                        assert(nibble_of_char(hex_str@[i]) is Some);
                    }
                    assert(false);
                }
            }
            Err(HexError::MalformedHex)
        },
    }
}

} // verus!
