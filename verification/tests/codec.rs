use wasm_prover::{bytes_to_hex, hex_to_bytes, HexError};

#[test]
fn encodes_known_bytes_in_lower_case() {
    assert_eq!(bytes_to_hex(&[0xde, 0xad, 0xbe, 0xef]), "deadbeef");
    assert_eq!(bytes_to_hex(&[1, 2, 3, 15, 16]), "0102030f10");
    assert_eq!(bytes_to_hex(&[0x00, 0x0a, 0xa0, 0xff]), "000aa0ff");
}

#[test]
fn encodes_text_bytes() {
    assert_eq!(bytes_to_hex("Hello world!".as_bytes()), "48656c6c6f20776f726c6421");
}

#[test]
fn encodes_nothing_as_nothing() {
    assert_eq!(bytes_to_hex(&[]), "");
    assert_eq!(hex_to_bytes(""), Ok(vec![]));
}

#[test]
fn encoded_length_is_twice_the_input() {
    for len in 0..70usize {
        let bytes: Vec<u8> = (0..len).map(|i| (i * 37 + 11) as u8).collect();
        assert_eq!(bytes_to_hex(&bytes).len(), 2 * len);
    }
}

#[test]
fn encoded_text_is_lower_case_hex_for_every_byte() {
    for b in 0..=255u8 {
        let text = bytes_to_hex(&[b]);
        assert_eq!(text.len(), 2);
        assert!(text.chars().all(|c| matches!(c, '0'..='9' | 'a'..='f')));
        assert_eq!(text, format!("{:02x}", b));
    }
}

#[test]
fn decoding_the_encoding_gives_the_bytes_back() {
    let all: Vec<u8> = (0..=255u8).collect();
    assert_eq!(hex_to_bytes(&bytes_to_hex(&all)), Ok(all));
    let some = vec![0u8, 255, 16, 1, 128, 127];
    assert_eq!(hex_to_bytes(&bytes_to_hex(&some)), Ok(some));
}

#[test]
fn decodes_either_case() {
    assert_eq!(hex_to_bytes("f9b4ca"), Ok(vec![0xf9, 0xb4, 0xca]));
    assert_eq!(hex_to_bytes("F9B4CA"), Ok(vec![0xf9, 0xb4, 0xca]));
    assert_eq!(hex_to_bytes("f9B4Ca"), Ok(vec![0xf9, 0xb4, 0xca]));
    assert_eq!(hex_to_bytes("0123456789abcdefABCDEF"), Ok(vec![
        0x01, 0x23, 0x45, 0x67, 0x89, 0xab, 0xcd, 0xef, 0xab, 0xcd, 0xef
    ]));
}

#[test]
fn refuses_odd_length() {
    assert_eq!(hex_to_bytes("123"), Err(HexError::MalformedHex));
    assert_eq!(hex_to_bytes("a"), Err(HexError::MalformedHex));
}

#[test]
fn refuses_characters_that_are_no_hex_digits() {
    assert_eq!(hex_to_bytes("foo!"), Err(HexError::MalformedHex));
    assert_eq!(hex_to_bytes("zz"), Err(HexError::MalformedHex));
    assert_eq!(hex_to_bytes("0g"), Err(HexError::MalformedHex));
    assert_eq!(hex_to_bytes("g0"), Err(HexError::MalformedHex));
    assert_eq!(hex_to_bytes("12 4"), Err(HexError::MalformedHex));
    assert_eq!(hex_to_bytes("0x12"), Err(HexError::MalformedHex));
    assert_eq!(hex_to_bytes("/0"), Err(HexError::MalformedHex));
    assert_eq!(hex_to_bytes(":0"), Err(HexError::MalformedHex));
    assert_eq!(hex_to_bytes("@0"), Err(HexError::MalformedHex));
    assert_eq!(hex_to_bytes("G0"), Err(HexError::MalformedHex));
    assert_eq!(hex_to_bytes("`0"), Err(HexError::MalformedHex));
}

#[test]
fn refuses_text_that_is_not_ascii() {
    assert_eq!(hex_to_bytes("é"), Err(HexError::MalformedHex));
    assert_eq!(hex_to_bytes("12é4"), Err(HexError::MalformedHex));
    assert_eq!(hex_to_bytes("１２"), Err(HexError::MalformedHex));
}

#[test]
fn hex_error_has_a_message() {
    assert_eq!(
        HexError::MalformedHex.to_message(),
        "Invalid hex: odd length or a character that is not a hex digit"
    );
}
