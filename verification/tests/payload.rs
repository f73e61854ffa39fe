use wasm_prover::payload::{canonicalize, json_array, json_number, json_string};
use wasm_prover::{Output, PrivateInputs, ProofInputs, PublicInputs};

fn owned(items: &[&str]) -> Vec<String> {
    items.iter().map(|s| s.to_string()).collect()
}

fn sample_request() -> ProofInputs {
    ProofInputs::new(
        PrivateInputs::new(
            10,
            "blind".to_string(),
            "secret".to_string(),
            5,
            owned(&["h0", "h1", "h2"]),
            vec![1, 0, 1],
        ),
        PublicInputs::new("root".to_string(), "nf".to_string(), "oh".to_string(), 10),
        vec![Output::new("alice".to_string(), 7), Output::new("bob".to_string(), 3)],
    )
}

const SAMPLE_PAYLOAD: &str = "{\"outputs\":[{\"address\":\"alice\",\"amount\":7},{\"address\":\"bob\",\"amount\":3}],\"private_inputs\":{\"amount\":10,\"leaf_index\":5,\"merkle_path_elements\":[\"h0\",\"h1\",\"h2\"],\"merkle_path_indices\":[1,0,1],\"r\":\"blind\",\"sk_spend\":\"secret\"},\"public_inputs\":{\"amount\":10,\"nf\":\"nf\",\"outputs_hash\":\"oh\",\"root\":\"root\"}}";

/// The same request written by serde_json from a value tree whose maps keep
/// their keys in ascending order.
fn reference_payload(request: &ProofInputs) -> String {
    let private = request.private_inputs();
    let public = request.public_inputs();
    let mut private_map = serde_json::Map::new();
    private_map.insert("amount".to_string(), serde_json::Value::from(private.amount()));
    private_map.insert("r".to_string(), serde_json::Value::from(private.r()));
    private_map.insert("sk_spend".to_string(), serde_json::Value::from(private.sk_spend()));
    private_map.insert("leaf_index".to_string(), serde_json::Value::from(private.leaf_index()));
    private_map.insert(
        "merkle_path_elements".to_string(),
        serde_json::Value::from(private.merkle_path_elements()),
    );
    private_map.insert(
        "merkle_path_indices".to_string(),
        serde_json::Value::from(private.merkle_path_indices()),
    );
    let mut public_map = serde_json::Map::new();
    public_map.insert("root".to_string(), serde_json::Value::from(public.root()));
    public_map.insert("nf".to_string(), serde_json::Value::from(public.nf()));
    public_map.insert("outputs_hash".to_string(), serde_json::Value::from(public.outputs_hash()));
    public_map.insert("amount".to_string(), serde_json::Value::from(public.amount()));
    let outputs: Vec<serde_json::Value> = request
        .outputs()
        .iter()
        .map(|o| {
            let mut map = serde_json::Map::new();
            map.insert("address".to_string(), serde_json::Value::from(o.address()));
            map.insert("amount".to_string(), serde_json::Value::from(o.amount()));
            serde_json::Value::Object(map)
        })
        .collect();
    let mut top = serde_json::Map::new();
    top.insert("private_inputs".to_string(), serde_json::Value::Object(private_map));
    top.insert("public_inputs".to_string(), serde_json::Value::Object(public_map));
    top.insert("outputs".to_string(), serde_json::Value::Array(outputs));
    serde_json::to_string(&serde_json::Value::Object(top)).unwrap()
}

#[test]
fn numbers_are_written_in_decimal() {
    assert_eq!(json_number(0), "0");
    assert_eq!(json_number(7), "7");
    assert_eq!(json_number(9), "9");
    assert_eq!(json_number(10), "10");
    assert_eq!(json_number(99), "99");
    assert_eq!(json_number(100), "100");
    assert_eq!(json_number(1234567890), "1234567890");
    assert_eq!(json_number(4294967295), "4294967295");
    assert_eq!(json_number(u64::MAX), "18446744073709551615");
}

#[test]
fn numbers_agree_with_the_standard_formatting() {
    let mut n: u64 = 1;
    for _ in 0..64 {
        assert_eq!(json_number(n), n.to_string());
        assert_eq!(json_number(n - 1), (n - 1).to_string());
        n = n.wrapping_mul(2);
    }
    let mut p: u64 = 1;
    for _ in 0..19 {
        assert_eq!(json_number(p), p.to_string());
        assert_eq!(json_number(p - 1), (p - 1).to_string());
        assert_eq!(json_number(p + 1), (p + 1).to_string());
        p *= 10;
    }
}

#[test]
fn strings_are_quoted() {
    assert_eq!(json_string("abc"), Ok("\"abc\"".to_string()));
    assert_eq!(json_string(""), Ok("\"\"".to_string()));
}

#[test]
fn strings_are_escaped() {
    assert_eq!(json_string("a\"b"), Ok("\"a\\\"b\"".to_string()));
    assert_eq!(json_string("a\\b"), Ok("\"a\\\\b\"".to_string()));
    assert_eq!(json_string("line\nbreak\ttab"), Ok("\"line\\nbreak\\ttab\"".to_string()));
    assert_eq!(json_string("\u{1}"), Ok("\"\\u0001\"".to_string()));
    assert_eq!(json_string("\u{1f}\r\u{8}\u{c}"), Ok("\"\\u001f\\r\\b\\f\"".to_string()));
    assert_eq!(json_string("é/\u{1F511}"), Ok("\"é/\u{1F511}\"".to_string()));
}

#[test]
fn arrays_are_bracketed_and_comma_separated() {
    assert_eq!(json_array(&owned(&[])), "[]");
    assert_eq!(json_array(&owned(&["1"])), "[1]");
    assert_eq!(json_array(&owned(&["1", "\"two\"", "[3]"])), "[1,\"two\",[3]]");
    assert_eq!(json_array(&owned(&["", ""])), "[,]");
}

#[test]
fn the_canonical_payload_of_an_empty_request() {
    let request = ProofInputs::new(
        PrivateInputs::new(0, String::new(), String::new(), 0, vec![], vec![]),
        PublicInputs::new(String::new(), String::new(), String::new(), 0),
        vec![],
    );
    assert_eq!(
        canonicalize(&request),
        Ok("{\"outputs\":[],\"private_inputs\":{\"amount\":0,\"leaf_index\":0,\"merkle_path_elements\":[],\"merkle_path_indices\":[],\"r\":\"\",\"sk_spend\":\"\"},\"public_inputs\":{\"amount\":0,\"nf\":\"\",\"outputs_hash\":\"\",\"root\":\"\"}}".to_string())
    );
}

#[test]
fn the_canonical_payload_escapes_its_strings() {
    let request = ProofInputs::new(
        PrivateInputs::new(
            1,
            "a\"b".to_string(),
            "c\\d".to_string(),
            2,
            vec!["\n".to_string(), "\u{1}".to_string()],
            vec![0, 1],
        ),
        PublicInputs::new("\t".to_string(), "\r".to_string(), "\u{7f}".to_string(), 1),
        vec![Output::new("\u{8}\u{c}".to_string(), 1)],
    );
    assert_eq!(
        canonicalize(&request),
        Ok("{\"outputs\":[{\"address\":\"\\b\\f\",\"amount\":1}],\"private_inputs\":{\"amount\":1,\"leaf_index\":2,\"merkle_path_elements\":[\"\\n\",\"\\u0001\"],\"merkle_path_indices\":[0,1],\"r\":\"a\\\"b\",\"sk_spend\":\"c\\\\d\"},\"public_inputs\":{\"amount\":1,\"nf\":\"\\r\",\"outputs_hash\":\"\u{7f}\",\"root\":\"\\t\"}}".to_string())
    );
}

#[test]
fn every_character_below_the_space_is_escaped_as_specified() {
    for code in 0u32..0x20 {
        let c = char::from_u32(code).unwrap();
        let expected = match code {
            0x08 => "\"\\b\"".to_string(),
            0x09 => "\"\\t\"".to_string(),
            0x0a => "\"\\n\"".to_string(),
            0x0c => "\"\\f\"".to_string(),
            0x0d => "\"\\r\"".to_string(),
            _ => format!("\"\\u00{:02x}\"", code),
        };
        assert_eq!(json_string(&c.to_string()), Ok(expected));
    }
    for code in 0x20u32..0x250 {
        let c = char::from_u32(code).unwrap();
        let expected = match c {
            '"' => "\"\\\"\"".to_string(),
            '\\' => "\"\\\\\"".to_string(),
            _ => format!("\"{}\"", c),
        };
        assert_eq!(json_string(&c.to_string()), Ok(expected));
    }
}

#[test]
fn the_canonical_payload_of_a_request() {
    assert_eq!(canonicalize(&sample_request()), Ok(SAMPLE_PAYLOAD.to_string()));
}

#[test]
fn the_canonical_payload_is_the_same_for_equal_requests() {
    assert_eq!(canonicalize(&sample_request()), canonicalize(&sample_request()));
}

#[test]
fn the_canonical_payload_is_what_serde_json_writes() {
    let request = sample_request();
    assert_eq!(canonicalize(&request), Ok(reference_payload(&request)));

    let awkward = ProofInputs::new(
        PrivateInputs::new(
            u64::MAX,
            "quote\" backslash\\ newline\n".to_string(),
            "\u{0}\u{1f}\u{7f}é\u{1F511}".to_string(),
            u32::MAX,
            owned(&["", "\"", "],[", "\t"]),
            vec![0, 1, 7, u32::MAX],
        ),
        PublicInputs::new("{".to_string(), "}".to_string(), ",".to_string(), 0),
        vec![Output::new("a\":1,\"b".to_string(), 0), Output::new(String::new(), u64::MAX)],
    );
    assert_eq!(canonicalize(&awkward), Ok(reference_payload(&awkward)));
}

#[test]
fn the_canonical_payload_tells_requests_apart() {
    let base = canonicalize(&sample_request()).unwrap();
    let other_leaf = ProofInputs::new(
        PrivateInputs::new(
            10,
            "blind".to_string(),
            "secret".to_string(),
            6,
            owned(&["h0", "h1", "h2"]),
            vec![1, 0, 1],
        ),
        PublicInputs::new("root".to_string(), "nf".to_string(), "oh".to_string(), 10),
        vec![Output::new("alice".to_string(), 7), Output::new("bob".to_string(), 3)],
    );
    assert_ne!(canonicalize(&other_leaf).unwrap(), base);
    let other_order = ProofInputs::new(
        PrivateInputs::new(
            10,
            "blind".to_string(),
            "secret".to_string(),
            5,
            owned(&["h1", "h0", "h2"]),
            vec![1, 0, 1],
        ),
        PublicInputs::new("root".to_string(), "nf".to_string(), "oh".to_string(), 10),
        vec![Output::new("alice".to_string(), 7), Output::new("bob".to_string(), 3)],
    );
    assert_ne!(canonicalize(&other_order).unwrap(), base);
    let split_differently = ProofInputs::new(
        PrivateInputs::new(
            10,
            "blind".to_string(),
            "secret".to_string(),
            5,
            owned(&["h0\",\"h1", "h2"]),
            vec![1, 0],
        ),
        PublicInputs::new("root".to_string(), "nf".to_string(), "oh".to_string(), 10),
        vec![Output::new("alice".to_string(), 7), Output::new("bob".to_string(), 3)],
    );
    assert_ne!(canonicalize(&split_differently).unwrap(), base);
}
