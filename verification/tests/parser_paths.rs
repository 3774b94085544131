use hara::codex::abi::AbiType;
use hara::codex::decode;
use hara::codex::encode;
use hara::codex::hexfile::{hex_text_to_bytes, HexTextError};
use hara::codex::inspect::{hexdump, pretty_json};
use hara::codex::parser::{default_type, parse_abi_items, parse_abi_type, parse_u8, RawItem, RawParam};

fn p(ty: &str) -> RawParam {
    RawParam { ty: ty.to_string(), indexed: false, components: vec![], inner: None }
}

#[test]
fn parse_type_texts() {
    assert_eq!(parse_abi_type(&p("address")), AbiType::Address);
    assert_eq!(parse_abi_type(&p("  bool ")), AbiType::Bool);
    assert_eq!(parse_abi_type(&p("uint256[]")), AbiType::Array(Box::new(AbiType::Uint256)));
    assert_eq!(
        parse_abi_type(&p("uint8[3][]")),
        AbiType::Array(Box::new(AbiType::Array(Box::new(AbiType::Uint8))))
    );
    assert_eq!(parse_abi_type(&p("uint64")), AbiType::Uint64);
    assert_eq!(parse_abi_type(&p("int8")), AbiType::Uint8);
    assert_eq!(parse_abi_type(&p("int128")), AbiType::Uint128);
    assert_eq!(parse_abi_type(&p("int24")), AbiType::Uint256);
    assert_eq!(parse_abi_type(&p("int256")), AbiType::Uint256);
    assert_eq!(parse_abi_type(&p("bytes3")), AbiType::BytesN(3));
    assert_eq!(parse_abi_type(&p("bytes32")), AbiType::Bytes32);
    assert_eq!(parse_abi_type(&p("bytes7")), AbiType::Bytes32);
    assert_eq!(parse_abi_type(&p("bytesX")), AbiType::Bytes32);
    assert_eq!(parse_abi_type(&p("bytes")), AbiType::Bytes);
    assert_eq!(parse_abi_type(&p("string")), AbiType::AbiString);
    assert_eq!(parse_abi_type(&p("function")), AbiType::Bytes);
    assert_eq!(parse_abi_type(&p("array")), AbiType::Bytes);
}

#[test]
fn parse_tuple_and_array_inner() {
    let tuple = RawParam {
        ty: "tuple[]".to_string(),
        indexed: false,
        components: vec![p("address"), p("uint256")],
        inner: None,
    };
    assert_eq!(
        parse_abi_type(&tuple),
        AbiType::Array(Box::new(AbiType::Tuple(vec![AbiType::Address, AbiType::Uint256])))
    );
    let arr = RawParam { ty: "array".to_string(), indexed: false, components: vec![], inner: Some(Box::new(p("bool"))) };
    assert_eq!(parse_abi_type(&arr), AbiType::Array(Box::new(AbiType::Bool)));
    // the element of a `T[]` never looks at `inner`
    let arr2 = RawParam { ty: "array[]".to_string(), indexed: false, components: vec![], inner: Some(Box::new(p("bool"))) };
    assert_eq!(parse_abi_type(&arr2), AbiType::Array(Box::new(AbiType::Bytes)));
}

#[test]
fn parse_u8_like_from_str() {
    assert_eq!(parse_u8("4"), Some(4));
    assert_eq!(parse_u8("+4"), Some(4));
    assert_eq!(parse_u8("004"), Some(4));
    assert_eq!(parse_u8("255"), Some(255));
    assert_eq!(parse_u8("256"), None);
    assert_eq!(parse_u8(""), None);
    assert_eq!(parse_u8("+"), None);
    assert_eq!(parse_u8("-1"), None);
    assert_eq!(parse_u8("1a"), None);
    for s in ["0", "9", "17", "200", "1000", "+12", "x"] {
        assert_eq!(parse_u8(s), s.parse::<u8>().ok(), "{}", s);
    }
}

#[test]
fn items_to_blob_skips_unnamed_and_other_kinds() {
    let item = |kind: &str, name: Option<&str>, inputs: Vec<RawParam>| RawItem {
        kind: kind.to_string(),
        name: name.map(|n| n.to_string()),
        inputs,
        outputs: vec![],
    };
    let mut indexed = p("address");
    indexed.indexed = true;
    let items = vec![
        item("constructor", Some("ctor"), vec![p("uint256")]),
        item("function", Some("mint"), vec![p("address"), p("uint256")]),
        item("function", Some(""), vec![]),
        item("function", None, vec![]),
        item("event", Some("Transfer"), vec![indexed, p("uint256")]),
        item("error", Some("Oops"), vec![p("string")]),
        item("fallback", Some("f"), vec![]),
    ];
    let blob = parse_abi_items(&items);
    assert_eq!(blob.functions.len(), 1);
    assert_eq!(blob.functions[0].name, b"mint".to_vec());
    assert_eq!(blob.functions[0].inputs, vec![AbiType::Address, AbiType::Uint256]);
    assert_eq!(blob.events.len(), 1);
    assert!(blob.events[0].params[0].indexed);
    assert!(!blob.events[0].params[1].indexed);
    assert_eq!(blob.errors.len(), 1);
    assert_eq!(blob.errors[0].params, vec![AbiType::AbiString]);
    assert_eq!(default_type(), "function");
}

#[test]
fn hex_text_conversion() {
    assert_eq!(hex_text_to_bytes("0x48656c6c6f\n").unwrap(), b"Hello".to_vec());
    assert_eq!(hex_text_to_bytes("  DEad BE ef ").unwrap(), vec![0xde, 0xad, 0xbe, 0xef]);
    assert_eq!(hex_text_to_bytes("0x 12 34").unwrap(), vec![0x12, 0x34]);
    assert_eq!(hex_text_to_bytes("abc"), Err(HexTextError::OddLength));
    assert_eq!(hex_text_to_bytes("").unwrap(), Vec::<u8>::new());
}

#[test]
fn hexdump_rows() {
    let expected = format!("000000  48 65 6c 6c 6f {} |Hello|\n", " ".repeat(34));
    assert_eq!(hexdump(b"Hello"), expected);
    let data: Vec<u8> = (0u8..18).collect();
    let dump = hexdump(&data);
    let lines: Vec<&str> = dump.lines().collect();
    assert_eq!(lines.len(), 2);
    assert_eq!(lines[0], "000000  00 01 02 03 04 05 06 07  08 09 0a 0b 0c 0d 0e 0f  |................|");
    assert!(lines[1].starts_with("000010  10 11 "));
    assert_eq!(hexdump(&[]), "");
}

#[test]
fn pretty_json_reindents_only_json() {
    assert_eq!(pretty_json("not json"), "not json");
    let p = pretty_json("[{\"a\":1}]");
    assert!(p.contains('\n'));
    assert!(p.contains("\"a\": 1"));
}

#[test]
fn output_paths() {
    assert_eq!(encode::output_path("/abis/Token.json"), "/abis/Token.abi.bin");
    assert_eq!(decode::output_path("/abis/Token.abi.bin"), "/abis/Token.json");
    assert_eq!(decode::output_path("/abis/Token.bin"), "/abis/Token.json");
    assert!(encode::is_json_source("/abis/Token.JSON"));
    assert!(!encode::is_json_source("/abis/Token.abi.bin"));
    assert!(!encode::is_json_source("/abis/Token.txt"));
    assert!(!encode::is_json_source("/abis/.json"));
}
