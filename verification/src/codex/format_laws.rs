use vstd::prelude::*;
use vstd::utf8::*;
use super::abi::{self, TypeSpec, FunctionSpec, ErrorSpec};
use super::encode;
use super::json;
use super::keccak;
use crate::text;

verus! {

/// The canonical signature `name(T1,...,Tn)` of an entry, spelled out: its name as text,
/// then the canonical spellings of its types joined by commas, in parentheses.
pub open spec fn spelled_signature(name: Seq<u8>, types: Seq<TypeSpec>) -> Seq<char> {
    let n = if valid_utf8(name) { decode_utf8(name) } else { "unknown"@ };
    n + "("@ + abi::spec_canonical_list(types) + ")"@
}

/// The first four bytes of the Keccak-256 of a signature's UTF-8 bytes.
pub open spec fn keccak_prefix(sig: Seq<char>) -> Seq<u8> {
    let h = keccak::spec_keccak256(encode_utf8(sig));
    seq![h[0], h[1], h[2], h[3]]
}

/// An error entry starts with its selector: the first four bytes of the Keccak-256 of the
/// signature built from the error's own name and parameter types.
pub proof fn law_error_selector(e: ErrorSpec)
    ensures
        encode::enc_error(e).take(4) == keccak_prefix(spelled_signature(e.name, e.params)),
{
    assert(encode::enc_error(e).take(4) =~= keccak_prefix(spelled_signature(e.name, e.params)));
}

/// A function entry starts with its selector: the first four bytes of the Keccak-256 of the
/// signature built from the function's own name and input types.
pub proof fn law_function_selector(f: FunctionSpec)
    ensures
        encode::enc_function(f).take(4) == keccak_prefix(spelled_signature(f.name, f.inputs)),
{
    assert(encode::enc_function(f).take(4) =~= keccak_prefix(spelled_signature(f.name, f.inputs)));
}

/// The JSON objects of a list of types, one per type, in order.
pub open spec fn types_listed(ts: Seq<TypeSpec>) -> Seq<char> {
    json::spec_join(ts.map_values(|t: TypeSpec| json::spec_type_json(t)))
}

proof fn lemma_types_json_listed(ts: Seq<TypeSpec>)
    ensures
        json::spec_types_json(ts) == types_listed(ts),
    decreases ts.len(),
{
    if ts.len() > 1 {
        lemma_types_json_listed(ts.drop_last());
        assert(ts.drop_last().map_values(|t: TypeSpec| json::spec_type_json(t)) =~= ts.map_values(
            |t: TypeSpec| json::spec_type_json(t),
        ).drop_last());
    }
}

/// The manifest of an error entry lists every parameter: its `params` array holds the JSON
/// object of each parameter type, in order, joined by commas.
pub proof fn law_error_json_lists_params(e: ErrorSpec)
    ensures
        json::spec_error_json(e) == "{\"kind\":\"error\",\"name\":\""@ + text::spec_utf8_lossy(e.name)
            + "\",\"params\":["@ + types_listed(e.params) + "]}"@,
{
    lemma_types_json_listed(e.params);
}

/// The manifest of a function entry lists every input and every output, in order.
pub proof fn law_function_json_lists_types(f: FunctionSpec)
    ensures
        json::spec_function_json(f) == "{\"kind\":\"function\",\"name\":\""@ + text::spec_utf8_lossy(f.name)
            + "\",\"inputs\":["@ + types_listed(f.inputs) + "],\"outputs\":["@ + types_listed(f.outputs)
            + "]}"@,
{
    lemma_types_json_listed(f.inputs);
    lemma_types_json_listed(f.outputs);
}

/// A tuple's JSON lists every component, in order.
pub proof fn law_tuple_json_lists_components(fields: Seq<TypeSpec>)
    ensures
        json::spec_type_json(TypeSpec::Tuple(fields)) == "{\"type\":\"tuple\",\"components\":["@
            + types_listed(fields) + "]}"@,
{
    lemma_types_json_listed(fields);
}

} // verus!

verus! {

/// The number a string of hexadecimal digits spells, most significant digit first.
pub open spec fn hex_number(s: Seq<char>) -> nat
    decreases s.len(),
{
    if s.len() == 0 {
        0
    } else {
        hex_number(s.drop_last()) * 16 + crate::codex::hexfile::hex_value(s.last())
    }
}

proof fn lemma_hex_char(d: nat)
    requires
        d < 16,
    ensures
        crate::codex::hexfile::is_hex_digit(crate::codex::inspect::hex_char(d)),
        crate::codex::hexfile::hex_value(crate::codex::inspect::hex_char(d)) == d,
{
}

proof fn lemma_hex_digits(n: nat)
    ensures
        hex_number(crate::codex::inspect::hex_digits(n)) == n,
        1 <= crate::codex::inspect::hex_digits(n).len(),
        n < 16777216 ==> crate::codex::inspect::hex_digits(n).len() <= 6,
        n < 1048576 ==> crate::codex::inspect::hex_digits(n).len() <= 5,
        n < 65536 ==> crate::codex::inspect::hex_digits(n).len() <= 4,
        n < 4096 ==> crate::codex::inspect::hex_digits(n).len() <= 3,
        n < 256 ==> crate::codex::inspect::hex_digits(n).len() <= 2,
        forall|i: int| 0 <= i < crate::codex::inspect::hex_digits(n).len() ==> crate::codex::hexfile::is_hex_digit(
            #[trigger] crate::codex::inspect::hex_digits(n)[i],
        ),
    decreases n,
{
    let d = crate::codex::inspect::hex_digits(n);
    if n < 16 {
        lemma_hex_char(n);
        assert(d.drop_last().len() == 0);
        assert(hex_number(d.drop_last()) == 0);
        assert(d.last() == crate::codex::inspect::hex_char(n));
    } else {
        lemma_hex_digits(n / 16);
        lemma_hex_char(n % 16);
        let prev = crate::codex::inspect::hex_digits(n / 16);
        assert(d.drop_last() =~= prev);
        assert(hex_number(d) == (n / 16) * 16 + n % 16);
        assert forall|i: int| 0 <= i < d.len() implies crate::codex::hexfile::is_hex_digit(#[trigger] d[i]) by {
            if i < prev.len() {
                assert(d[i] == prev[i]);
            }
        }
    }
}

proof fn lemma_hex_number_zeros(z: Seq<char>, s: Seq<char>)
    requires
        forall|i: int| 0 <= i < z.len() ==> z[i] == '0',
    ensures
        hex_number(z + s) == hex_number(s),
    decreases z.len() + s.len(),
{
    if s.len() == 0 {
        assert(z + s =~= z);
        if z.len() > 0 {
            lemma_hex_number_zeros(z.drop_last(), s);
            assert(z.drop_last() + s =~= z.drop_last());
            assert(z.last() == '0');
        }
    } else {
        lemma_hex_number_zeros(z, s.drop_last());
        assert((z + s).drop_last() =~= z + s.drop_last());
        assert((z + s).last() == s.last());
    }
}

/// The offset column of the hex dump reads back as the offset: for every offset below
/// `16^6`, `hex6` gives six hexadecimal digits whose value is the offset.
pub proof fn law_offset_column_reads_back(n: nat)
    requires
        n < 16777216,
    ensures
        crate::codex::inspect::hex6(n).len() == 6,
        forall|i: int| 0 <= i < 6 ==> crate::codex::hexfile::is_hex_digit(#[trigger] crate::codex::inspect::hex6(n)[i]),
        hex_number(crate::codex::inspect::hex6(n)) == n,
{
    lemma_hex_digits(n);
    let d = crate::codex::inspect::hex_digits(n);
    let h = crate::codex::inspect::hex6(n);
    if d.len() < 6 {
        let z = Seq::new((6 - d.len()) as nat, |i: int| '0');
        assert(h == z + d);
        lemma_hex_number_zeros(z, d);
        assert forall|i: int| 0 <= i < 6 implies crate::codex::hexfile::is_hex_digit(#[trigger] h[i]) by {
            if i >= z.len() {
                assert(h[i] == d[i - z.len()]);
            }
        }
    }
}

} // verus!

verus! {

/// The Solidity spellings of the types that have a tag of their own: the unsigned and
/// signed integers of 8 to 256 bits, `address`, `bool`, `string`, `bytes`, `bytes1` to
/// `bytes4` and `bytes32`.
pub open spec fn is_tagged_type_name(t: Seq<char>) -> bool {
    ||| t == "uint8"@ || t == "uint16"@ || t == "uint32"@ || t == "uint64"@ || t == "uint128"@
        || t == "uint256"@
    ||| t == "int8"@ || t == "int16"@ || t == "int32"@ || t == "int64"@ || t == "int128"@
        || t == "int256"@
    ||| t == "address"@ || t == "bool"@ || t == "string"@ || t == "bytes"@
    ||| t == "bytes1"@ || t == "bytes2"@ || t == "bytes3"@ || t == "bytes4"@ || t == "bytes32"@
}

/// The canonical spelling a tagged type name is read as: itself, except that a signed
/// integer shares the tag of the unsigned integer of its width.
pub open spec fn read_as(t: Seq<char>) -> Seq<char> {
    if t.len() > 0 && t[0] == 'i' {
        "u"@ + t
    } else {
        t
    }
}

} // verus!

verus! {

proof fn lemma_tagged_text(p: crate::codex::parser::RawParam, raw: Seq<char>, use_inner: bool)
    requires
        is_tagged_type_name(text::spec_trim(raw)),
    ensures
        abi::spec_canonical(crate::codex::parser::spec_parse_text(p, raw, use_inner)) == read_as(text::spec_trim(raw)),
{
    reveal_strlit("uint8");
    reveal_strlit("uint16");
    reveal_strlit("uint32");
    reveal_strlit("uint64");
    reveal_strlit("uint128");
    reveal_strlit("uint256");
    reveal_strlit("int8");
    reveal_strlit("int16");
    reveal_strlit("int32");
    reveal_strlit("int64");
    reveal_strlit("int128");
    reveal_strlit("int256");
    reveal_strlit("address");
    reveal_strlit("bool");
    reveal_strlit("string");
    reveal_strlit("bytes");
    reveal_strlit("bytes1");
    reveal_strlit("bytes2");
    reveal_strlit("bytes3");
    reveal_strlit("bytes4");
    reveal_strlit("bytes32");
    reveal_strlit("tuple");
    reveal_strlit("array");
    reveal_strlit("uint");
    reveal_strlit("int");
    reveal_strlit("u");
    reveal_strlit("1");
    reveal_strlit("2");
    reveal_strlit("3");
    reveal_strlit("4");
    assert("uint8"@.len() == 5);
    assert("uint16"@.len() == 6);
    assert("uint32"@.len() == 6);
    assert("uint64"@.len() == 6);
    assert("uint128"@.len() == 7);
    assert("uint256"@.len() == 7);
    assert("int8"@.len() == 4);
    assert("int16"@.len() == 5);
    assert("int32"@.len() == 5);
    assert("int64"@.len() == 5);
    assert("int128"@.len() == 6);
    assert("int256"@.len() == 6);
    assert("address"@.len() == 7);
    assert("bool"@.len() == 4);
    assert("string"@.len() == 6);
    assert("bytes"@.len() == 5);
    assert("bytes1"@.len() == 6);
    assert("bytes2"@.len() == 6);
    assert("bytes3"@.len() == 6);
    assert("bytes4"@.len() == 6);
    assert("bytes32"@.len() == 7);
    assert("tuple"@.len() == 5);
    assert("array"@.len() == 5);
    assert("uint"@.len() == 4);
    assert("int"@.len() == 3);
    let ty = text::spec_trim(raw);
    let t = crate::codex::parser::spec_parse_text(p, raw, use_inner);
    if ty == "uint8"@ {
        assert(ty.last() != ']');
        assert(t == TypeSpec::Uint8);
        assert(abi::spec_canonical(t) =~= read_as(ty));
    }
    if ty == "uint16"@ {
        assert(ty.last() != ']');
        assert(t == TypeSpec::Uint16);
        assert(abi::spec_canonical(t) =~= read_as(ty));
    }
    if ty == "uint32"@ {
        assert(ty.last() != ']');
        assert(t == TypeSpec::Uint32);
        assert(abi::spec_canonical(t) =~= read_as(ty));
    }
    if ty == "uint64"@ {
        assert(ty.last() != ']');
        assert(t == TypeSpec::Uint64);
        assert(abi::spec_canonical(t) =~= read_as(ty));
    }
    if ty == "uint128"@ {
        assert(ty.last() != ']');
        assert(t == TypeSpec::Uint128);
        assert(abi::spec_canonical(t) =~= read_as(ty));
    }
    if ty == "uint256"@ {
        assert(ty.last() != ']');
        assert(t == TypeSpec::Uint256);
        assert(abi::spec_canonical(t) =~= read_as(ty));
    }
    if ty == "int8"@ {
        assert(ty.last() != ']');
        assert(t == TypeSpec::Uint8);
        assert(abi::spec_canonical(t) =~= read_as(ty));
    }
    if ty == "int16"@ {
        assert(ty.last() != ']');
        assert(t == TypeSpec::Uint16);
        assert(abi::spec_canonical(t) =~= read_as(ty));
    }
    if ty == "int32"@ {
        assert(ty.last() != ']');
        assert(t == TypeSpec::Uint32);
        assert(abi::spec_canonical(t) =~= read_as(ty));
    }
    if ty == "int64"@ {
        assert(ty.last() != ']');
        assert(t == TypeSpec::Uint64);
        assert(abi::spec_canonical(t) =~= read_as(ty));
    }
    if ty == "int128"@ {
        assert(ty.last() != ']');
        assert(t == TypeSpec::Uint128);
        assert(abi::spec_canonical(t) =~= read_as(ty));
    }
    if ty == "int256"@ {
        assert(ty.last() != ']');
        assert(ty[0] == 'i' && ty[1] == 'n' && ty[2] == 't' && ty[3] == '2');
        assert(ty.take(3) =~= "int"@);
        assert(crate::codex::parser::spec_starts_with(ty, "int"@));
        assert(t == TypeSpec::Uint256);
        assert(abi::spec_canonical(t) =~= read_as(ty));
    }
    if ty == "address"@ {
        assert(ty.last() != ']');
        assert(t == TypeSpec::Address);
        assert(abi::spec_canonical(t) =~= read_as(ty));
    }
    if ty == "bool"@ {
        assert(ty.last() != ']');
        assert(t == TypeSpec::Bool);
        assert(abi::spec_canonical(t) =~= read_as(ty));
    }
    if ty == "string"@ {
        assert(ty.last() != ']');
        assert(t == TypeSpec::AbiString);
        assert(abi::spec_canonical(t) =~= read_as(ty));
    }
    if ty == "bytes"@ {
        assert(ty.last() != ']');
        assert(t == TypeSpec::Bytes);
        assert(abi::spec_canonical(t) =~= read_as(ty));
    }
    if ty == "bytes1"@ {
        assert(ty.last() != ']');
        assert(t == TypeSpec::BytesN(1));
        assert(abi::spec_canonical(t) =~= read_as(ty));
    }
    if ty == "bytes2"@ {
        assert(ty.last() != ']');
        assert(ty[0] == 'b' && ty[5] == '2');
        assert(t == TypeSpec::BytesN(2));
        assert(abi::spec_canonical(t) =~= read_as(ty));
    }
    if ty == "bytes3"@ {
        assert(ty.last() != ']');
        assert(t == TypeSpec::BytesN(3));
        assert(abi::spec_canonical(t) =~= read_as(ty));
    }
    if ty == "bytes4"@ {
        assert(ty.last() != ']');
        assert(ty[0] == 'b' && ty[5] == '4');
        assert(t == TypeSpec::BytesN(4));
        assert(abi::spec_canonical(t) =~= read_as(ty));
    }
    if ty == "bytes32"@ {
        assert(ty.last() != ']');
        assert(ty[0] == 'b' && ty[1] == 'y' && ty[5] == '3' && ty[6] == '2');
        assert(ty.take(4) != "uint"@) by {
            assert(ty.take(4)[0] != "uint"@[0]);
        }
        assert(ty.take(3) != "int"@) by {
            assert(ty.take(3)[0] != "int"@[0]);
        }
        assert(ty.take(5) =~= "bytes"@);
        let d = ty.skip(5);
        assert(d =~= seq!['3', '2']);
        assert(crate::codex::parser::spec_unsigned_digits(d) == d);
        assert(crate::codex::parser::all_digits(d));
        assert(d.drop_last() =~= seq!['3']);
        assert(d.drop_last().drop_last() =~= Seq::<char>::empty());
        assert(crate::codex::parser::digits_value(d.drop_last().drop_last()) == 0);
        assert(crate::codex::parser::digits_value(d.drop_last()) == 3);
        assert(crate::codex::parser::digits_value(d) == 32);
        assert(crate::codex::parser::spec_parse_u8(d) == Some(32u8));
        assert(t == TypeSpec::Bytes32);
        assert(abi::spec_canonical(t) =~= read_as(ty));
    }
}

/// Every type name that has a tag of its own is read as that type: the canonical spelling
/// of what a parameter with that (trimmed) type text denotes is the name itself, or for a
/// signed integer the unsigned integer of the same width.
pub proof fn law_tagged_type_names_read_back(p: crate::codex::parser::RawParam)
    requires
        is_tagged_type_name(text::spec_trim(p.ty@)),
    ensures
        abi::spec_canonical(crate::codex::parser::spec_parse_abi_type(p)) == read_as(text::spec_trim(p.ty@)),
{
    lemma_tagged_text(p, p.ty@, true);
}

} // verus!

verus! {

/// The first byte of every type's encoding is the tag that the format's type table gives
/// it: uint256 1, address 2, bool 3, bytes32 4, string 5, bytes 6, uint8 7, uint16 8,
/// uint32 9, uint64 10, uint128 11, bytesN 12 followed by N, an array 0x20 followed by its
/// element type, and a tuple 0x30 followed by its field count and its fields.
pub proof fn law_type_tags(t: TypeSpec)
    ensures
        match t {
            TypeSpec::Uint256 => encode::enc_type(t) == seq![0x01u8],
            TypeSpec::Address => encode::enc_type(t) == seq![0x02u8],
            TypeSpec::Bool => encode::enc_type(t) == seq![0x03u8],
            TypeSpec::Bytes32 => encode::enc_type(t) == seq![0x04u8],
            TypeSpec::AbiString => encode::enc_type(t) == seq![0x05u8],
            TypeSpec::Bytes => encode::enc_type(t) == seq![0x06u8],
            TypeSpec::Uint8 => encode::enc_type(t) == seq![0x07u8],
            TypeSpec::Uint16 => encode::enc_type(t) == seq![0x08u8],
            TypeSpec::Uint32 => encode::enc_type(t) == seq![0x09u8],
            TypeSpec::Uint64 => encode::enc_type(t) == seq![0x0Au8],
            TypeSpec::Uint128 => encode::enc_type(t) == seq![0x0Bu8],
            TypeSpec::BytesN(n) => encode::enc_type(t) == seq![0x0Cu8, n],
            TypeSpec::Array(inner) => encode::enc_type(t) == seq![0x20u8] + encode::enc_type(*inner),
            TypeSpec::Tuple(fields) => encode::enc_type(t) == seq![0x30u8, (fields.len() % 256) as u8]
                + encode::enc_types(fields),
        },
{
}

/// Every entry is framed as its kind (function 1, event 2, error 3), the payload length as
/// a big-endian 16-bit number, then the payload.
pub proof fn law_entry_framing(e: encode::EntrySpec)
    ensures
        encode::enc_entry(e)[0] == match e {
            encode::EntrySpec::Function(_) => 0x01u8,
            encode::EntrySpec::Event(_) => 0x02u8,
            encode::EntrySpec::Error(_) => 0x03u8,
        },
        encode::enc_entry(e)[1] as nat * 256 + encode::enc_entry(e)[2] as nat == encode::entry_payload(e).len() % 65536,
        encode::enc_entry(e).skip(3) == encode::entry_payload(e),
{
    let p = encode::entry_payload(e);
    let v = p.len() % 65536;
    assert((v / 256) * 256 + v % 256 == v);
    assert((v / 256) < 256);
    assert(encode::enc_entry(e).skip(3) =~= p);
}

/// The JSON of a type that has a tag of its own names it by its canonical spelling:
/// `{"type":"<canonical>"}`.
pub proof fn law_type_json_names_canonical(t: TypeSpec)
    requires
        !(t is Array),
        !(t is Tuple),
    ensures
        json::spec_type_json(t) == "{\"type\":\""@ + abi::spec_canonical(t) + "\"}"@,
{
    reveal_strlit("{\"type\":\"");
    reveal_strlit("\"}");
    reveal_strlit("{\"type\":\"bytes");
    reveal_strlit("bytes");
    match t {
        TypeSpec::Uint256 => {
            reveal_strlit("{\"type\":\"uint256\"}");
            reveal_strlit("uint256");
        },
        TypeSpec::Uint8 => {
            reveal_strlit("{\"type\":\"uint8\"}");
            reveal_strlit("uint8");
        },
        TypeSpec::Uint16 => {
            reveal_strlit("{\"type\":\"uint16\"}");
            reveal_strlit("uint16");
        },
        TypeSpec::Uint32 => {
            reveal_strlit("{\"type\":\"uint32\"}");
            reveal_strlit("uint32");
        },
        TypeSpec::Uint64 => {
            reveal_strlit("{\"type\":\"uint64\"}");
            reveal_strlit("uint64");
        },
        TypeSpec::Uint128 => {
            reveal_strlit("{\"type\":\"uint128\"}");
            reveal_strlit("uint128");
        },
        TypeSpec::Address => {
            reveal_strlit("{\"type\":\"address\"}");
            reveal_strlit("address");
        },
        TypeSpec::Bool => {
            reveal_strlit("{\"type\":\"bool\"}");
            reveal_strlit("bool");
        },
        TypeSpec::Bytes32 => {
            reveal_strlit("{\"type\":\"bytes32\"}");
            reveal_strlit("bytes32");
        },
        TypeSpec::AbiString => {
            reveal_strlit("{\"type\":\"string\"}");
            reveal_strlit("string");
        },
        TypeSpec::Bytes => {
            reveal_strlit("{\"type\":\"bytes\"}");
        },
        _ => {},
    }
    assert(json::spec_type_json(t) =~= "{\"type\":\""@ + abi::spec_canonical(t) + "\"}"@);
}

/// Each row of the hex dump starts with its offset: the dump from offset `16k` on begins
/// with six hexadecimal digits whose value is `16k`.
pub proof fn law_dump_rows_start_with_offset(data: Seq<u8>, k: nat)
    requires
        16 * k < data.len(),
        16 * k < 16777216,
    ensures
        crate::codex::inspect::dump_from(data, 16 * k).len() >= 6,
        hex_number(crate::codex::inspect::dump_from(data, 16 * k).take(6)) == 16 * k,
{
    law_offset_column_reads_back(16 * k);
    let d = crate::codex::inspect::dump_from(data, 16 * k);
    let h = crate::codex::inspect::hex6(16 * k);
    assert(d.take(6) =~= h);
}

} // verus!

verus! {

/// The JSON object of an event parameter, spelled out: its `indexed` flag, then its type.
pub open spec fn event_param_listed(p: abi::ParamSpec) -> Seq<char> {
    "{\"indexed\":"@ + (if p.indexed {
        "true"@
    } else {
        "false"@
    }) + ",\"type\":"@ + json::spec_type_json(p.ty) + "}"@
}

/// The manifest of an event entry lists every parameter, in order, each with its
/// `indexed` flag and its type.
pub proof fn law_event_json_lists_params(e: abi::EventSpec)
    ensures
        json::spec_event_json(e) == "{\"kind\":\"event\",\"name\":\""@ + text::spec_utf8_lossy(e.name)
            + "\",\"params\":["@ + json::spec_join(
            Seq::new(e.params.len(), |k: int| event_param_listed(e.params[k])),
        ) + "]}"@,
{
    assert(e.params.map_values(|p: abi::ParamSpec| json::spec_param_json(p)) =~= Seq::new(
        e.params.len(),
        |k: int| event_param_listed(e.params[k]),
    ));
}

} // verus!

verus! {

/// A lowercase ASCII letter or a decimal digit.
pub open spec fn is_name_char(c: char) -> bool {
    let u = c as u32;
    (97 <= u && u <= 122) || (48 <= u && u <= 57)
}

proof fn lemma_tagged_chars(t: Seq<char>)
    requires
        is_tagged_type_name(t),
    ensures
        t.len() > 0,
        forall|i: int| 0 <= i < t.len() ==> is_name_char(#[trigger] t[i]),
{
    if t == "uint8"@ {
        reveal_strlit("uint8");
        assert(t.len() == 5);
    }
    if t == "uint16"@ {
        reveal_strlit("uint16");
        assert(t.len() == 6);
    }
    if t == "uint32"@ {
        reveal_strlit("uint32");
        assert(t.len() == 6);
    }
    if t == "uint64"@ {
        reveal_strlit("uint64");
        assert(t.len() == 6);
    }
    if t == "uint128"@ {
        reveal_strlit("uint128");
        assert(t.len() == 7);
    }
    if t == "uint256"@ {
        reveal_strlit("uint256");
        assert(t.len() == 7);
    }
    if t == "int8"@ {
        reveal_strlit("int8");
        assert(t.len() == 4);
    }
    if t == "int16"@ {
        reveal_strlit("int16");
        assert(t.len() == 5);
    }
    if t == "int32"@ {
        reveal_strlit("int32");
        assert(t.len() == 5);
    }
    if t == "int64"@ {
        reveal_strlit("int64");
        assert(t.len() == 5);
    }
    if t == "int128"@ {
        reveal_strlit("int128");
        assert(t.len() == 6);
    }
    if t == "int256"@ {
        reveal_strlit("int256");
        assert(t.len() == 6);
    }
    if t == "address"@ {
        reveal_strlit("address");
        assert(t.len() == 7);
    }
    if t == "bool"@ {
        reveal_strlit("bool");
        assert(t.len() == 4);
    }
    if t == "string"@ {
        reveal_strlit("string");
        assert(t.len() == 6);
    }
    if t == "bytes"@ {
        reveal_strlit("bytes");
        assert(t.len() == 5);
    }
    if t == "bytes1"@ {
        reveal_strlit("bytes1");
        assert(t.len() == 6);
    }
    if t == "bytes2"@ {
        reveal_strlit("bytes2");
        assert(t.len() == 6);
    }
    if t == "bytes3"@ {
        reveal_strlit("bytes3");
        assert(t.len() == 6);
    }
    if t == "bytes4"@ {
        reveal_strlit("bytes4");
        assert(t.len() == 6);
    }
    if t == "bytes32"@ {
        reveal_strlit("bytes32");
        assert(t.len() == 7);
    }
}

proof fn lemma_trim_name(t: Seq<char>)
    requires
        t.len() > 0,
        forall|i: int| 0 <= i < t.len() ==> is_name_char(#[trigger] t[i]),
    ensures
        text::spec_trim(t) == t,
{
    assert(is_name_char(t[0]));
    assert(is_name_char(t.last()));
    assert(text::spec_trim_start(t) == t);
    assert(text::spec_trim_end(t) == t);
}

/// An array of a tagged type, written `T[]`, is read as an array whose element is read as
/// `T` alone would be.
pub proof fn law_array_type_names_read_back(p: crate::codex::parser::RawParam, t: Seq<char>)
    requires
        is_tagged_type_name(t),
        text::spec_trim(p.ty@) == t + "[]"@,
    ensures
        crate::codex::parser::spec_parse_abi_type(p) matches TypeSpec::Array(inner)
            && abi::spec_canonical(*inner) == read_as(t),
{
    reveal_strlit("[]");
    lemma_tagged_chars(t);
    lemma_trim_name(t);
    let ty = text::spec_trim(p.ty@);
    assert(ty.len() == t.len() + 2);
    assert(ty[t.len() as int] == '[');
    assert(ty.last() == ']');
    text::lemma_rfind(ty, '[');
    let b = text::spec_rfind(ty, '[');
    if b != t.len() {
        if b < t.len() {
            assert(ty[t.len() as int] != '[');
        } else {
            assert(ty[b] == '[');
            if b < t.len() {
                assert(is_name_char(t[b]));
            }
        }
    }
    assert(b == t.len());
    assert(ty.take(b) =~= t);
    lemma_tagged_text(p, t, false);
}

} // verus!

verus! {

proof fn lemma_parse_list_each(ps: Seq<crate::codex::parser::RawParam>)
    ensures
        crate::codex::parser::spec_parse_list(ps) == Seq::new(
            ps.len(),
            |k: int| crate::codex::parser::spec_parse_abi_type(ps[k]),
        ),
    decreases ps.len(),
{
    if ps.len() > 0 {
        lemma_parse_list_each(ps.drop_last());
        assert(crate::codex::parser::spec_parse_list(ps) =~= Seq::new(
            ps.len(),
            |k: int| crate::codex::parser::spec_parse_abi_type(ps[k]),
        ));
    } else {
        assert(crate::codex::parser::spec_parse_list(ps) =~= Seq::new(
            ps.len(),
            |k: int| crate::codex::parser::spec_parse_abi_type(ps[k]),
        ));
    }
}

/// A `tuple` parameter is read as the tuple of its components, each read as a parameter of
/// its own, in order.
pub proof fn law_tuple_reads_components(p: crate::codex::parser::RawParam)
    requires
        text::spec_trim(p.ty@) == "tuple"@,
    ensures
        crate::codex::parser::spec_parse_abi_type(p) == TypeSpec::Tuple(
            Seq::new(
                p.components@.len(),
                |k: int| crate::codex::parser::spec_parse_abi_type(p.components@[k]),
            ),
        ),
{
    reveal_strlit("tuple");
    reveal_strlit("address");
    reveal_strlit("bool");
    reveal_strlit("string");
    reveal_strlit("bytes");
    assert("tuple"@.len() == 5);
    assert("address"@.len() == 7);
    assert("bool"@.len() == 4);
    assert("string"@.len() == 6);
    let ty = text::spec_trim(p.ty@);
    assert(ty[0] == 't' && ty.last() == 'e');
    assert("bytes"@[0] == 'b');
    lemma_parse_list_each(p.components@);
}

} // verus!
