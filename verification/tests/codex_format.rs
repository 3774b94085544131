use hara::codex::abi::{AbiBlob, AbiError, AbiEvent, AbiFunction, AbiType, EventParam};
use hara::codex::decode::{decode_blob, decode_type, Cursor};
use hara::codex::encode::{encode_blob, encode_type};
use hara::codex::json::blob_to_json;

fn readme_blob() -> AbiBlob {
    AbiBlob {
        functions: vec![AbiFunction {
            name: b"transfer".to_vec(),
            inputs: vec![AbiType::Address, AbiType::Uint256],
            outputs: vec![AbiType::Bool],
        }],
        events: vec![AbiEvent {
            name: b"Transfer".to_vec(),
            params: vec![
                EventParam { ty: AbiType::Address, indexed: true },
                EventParam { ty: AbiType::Address, indexed: true },
                EventParam { ty: AbiType::Uint256, indexed: false },
            ],
        }],
        errors: vec![AbiError {
            name: b"InsufficientBalance".to_vec(),
            params: vec![AbiType::Address, AbiType::Uint256],
        }],
    }
}

#[test]
fn readme_blob_layout() {
    let bytes = encode_blob(&readme_blob());
    assert_eq!(bytes.len(), 71);
    assert_eq!(bytes[0], 3);
    // function entry: kind, length 18, selector of transfer(address,uint256)
    assert_eq!(&bytes[1..4], &[0x01, 0x00, 0x12]);
    assert_eq!(&bytes[4..8], &[0xa9, 0x05, 0x9c, 0xbb]);
    assert_eq!(bytes[8], 8);
    assert_eq!(&bytes[9..17], b"transfer");
    assert_eq!(&bytes[17..22], &[0x02, 0x02, 0x01, 0x01, 0x03]);
    // event entry: no selector
    assert_eq!(&bytes[22..25], &[0x02, 0x00, 0x10]);
    assert_eq!(bytes[25], 8);
    assert_eq!(&bytes[26..34], b"Transfer");
    assert_eq!(&bytes[34..41], &[0x03, 0x01, 0x02, 0x01, 0x02, 0x00, 0x01]);
    // error entry: 27-byte payload, name of 19 bytes after the selector
    assert_eq!(&bytes[41..44], &[0x03, 0x00, 0x1b]);
    assert_eq!(bytes[48], 19);
    assert_eq!(&bytes[49..68], b"InsufficientBalance");
    assert_eq!(&bytes[68..71], &[0x02, 0x02, 0x01]);
}

#[test]
fn readme_nested_tuple_type_bytes() {
    let inner = AbiType::Tuple(vec![AbiType::Bool, AbiType::Bytes32]);
    let outer = AbiType::Tuple(vec![AbiType::Address, inner]);
    let mut buf = Vec::new();
    encode_type(&outer, &mut buf);
    assert_eq!(buf, vec![0x30, 0x02, 0x02, 0x30, 0x02, 0x03, 0x04]);

    let hop = AbiType::Array(Box::new(AbiType::Tuple(vec![AbiType::Address, AbiType::Uint256])));
    let mut buf = Vec::new();
    encode_type(&hop, &mut buf);
    assert_eq!(buf, vec![0x20, 0x30, 0x02, 0x02, 0x01]);
}

#[test]
fn decode_type_reads_exactly_one_type() {
    let data = [0x20u8, 0x0C, 0x03, 0xFF];
    let mut cur = Cursor::new(&data);
    let t = decode_type(&mut cur).unwrap();
    assert_eq!(t, AbiType::Array(Box::new(AbiType::BytesN(3))));
    // the next byte is no type
    assert_eq!(decode_type(&mut cur), Err("unknown type tag"));
}

#[test]
fn decode_error_messages() {
    assert_eq!(decode_blob(&[]).unwrap_err(), "unexpected end of data");
    assert_eq!(decode_blob(&[0x01, 0xFF, 0x00, 0x01, 0x00]).unwrap_err(), "unknown entry type");
    let mut bytes = encode_blob(&AbiBlob {
        functions: vec![AbiFunction { name: b"foo".to_vec(), inputs: vec![AbiType::Bool], outputs: vec![] }],
        events: vec![],
        errors: vec![],
    });
    bytes[13] = 0xEE;
    assert_eq!(decode_blob(&bytes).unwrap_err(), "unknown type tag");
}

#[test]
fn every_truncation_is_rejected() {
    let bytes = encode_blob(&readme_blob());
    for n in 0..bytes.len() {
        assert_eq!(decode_blob(&bytes[..n]).unwrap_err(), "unexpected end of data", "prefix {}", n);
    }
    assert!(decode_blob(&bytes).is_ok());
}

#[test]
fn decoding_inverts_encoding_on_readme_blob() {
    let blob = readme_blob();
    let decoded = decode_blob(&encode_blob(&blob)).unwrap();
    assert_eq!(decoded.functions[0].name, b"transfer".to_vec());
    assert_eq!(decoded.functions[0].inputs, blob.functions[0].inputs);
    assert_eq!(decoded.functions[0].outputs, blob.functions[0].outputs);
    assert_eq!(decoded.events[0].params[0].ty, AbiType::Address);
    assert!(decoded.events[0].params[0].indexed);
    assert!(!decoded.events[0].params[2].indexed);
    assert_eq!(decoded.errors[0].params, blob.errors[0].params);
}

#[test]
fn event_flag_uses_low_bit_only() {
    // flags 0x03 is indexed, 0x02 is not
    let data = [0x01u8, 0x02, 0x00, 0x06, 0x01, b'E', 0x02, 0x03, 0x01, 0x02];
    let blob = decode_blob(&data[..9]).unwrap_err();
    assert_eq!(blob, "unexpected end of data");
    let data = [0x01u8, 0x02, 0x00, 0x07, 0x01, b'E', 0x02, 0x03, 0x01, 0x02, 0x02];
    let blob = decode_blob(&data).unwrap();
    assert!(blob.events[0].params[0].indexed);
    assert!(!blob.events[0].params[1].indexed);
}

#[test]
fn canonical_spellings() {
    let t = AbiType::Tuple(vec![AbiType::Address, AbiType::Array(Box::new(AbiType::Uint256)), AbiType::BytesN(3)]);
    assert_eq!(t.canonical(), "(address,uint256[],bytes3)");
    assert_eq!(AbiType::Tuple(vec![]).canonical(), "()");
    assert_eq!(AbiType::BytesN(200).canonical(), "bytes200");
    assert_eq!(AbiType::BytesN(42).canonical(), "bytes42");
}

#[test]
fn blob_json_exact_text() {
    let blob = AbiBlob {
        functions: vec![AbiFunction {
            name: b"f".to_vec(),
            inputs: vec![AbiType::Array(Box::new(AbiType::BytesN(2)))],
            outputs: vec![AbiType::Tuple(vec![AbiType::Bool, AbiType::AbiString])],
        }],
        events: vec![AbiEvent {
            name: b"E".to_vec(),
            params: vec![
                EventParam { ty: AbiType::Uint8, indexed: true },
                EventParam { ty: AbiType::Bytes, indexed: false },
            ],
        }],
        errors: vec![AbiError { name: b"R".to_vec(), params: vec![] }],
    };
    let json = blob_to_json(&blob);
    assert_eq!(
        json,
        [
            r#"[{"kind":"function","name":"f","inputs":[{"type":"array","inner":{"type":"bytes2"}}],"#,
            r#""outputs":[{"type":"tuple","components":[{"type":"bool"},{"type":"string"}]}]},"#,
            r#"{"kind":"event","name":"E","params":[{"indexed":true,"type":{"type":"uint8"}},"#,
            r#"{"indexed":false,"type":{"type":"bytes"}}]},"#,
            r#"{"kind":"error","name":"R","params":[]}]"#,
        ]
        .concat()
    );
    assert_eq!(blob_to_json(&AbiBlob { functions: vec![], events: vec![], errors: vec![] }), "[]");
}

#[test]
fn count_and_lengths_truncate_like_casts() {
    // 256 functions: the count byte wraps to 0, as a `u8` cast does.
    let mut functions = Vec::new();
    for _ in 0..256 {
        functions.push(AbiFunction { name: b"f".to_vec(), inputs: vec![], outputs: vec![] });
    }
    let bytes = encode_blob(&AbiBlob { functions, events: vec![], errors: vec![] });
    assert_eq!(bytes[0], 0);
    assert_eq!(decode_blob(&bytes).unwrap().functions.len(), 0);
}
