use vstd::prelude::*;
use vstd::utf8::*;
use super::abi::{
    self, AbiType, AbiFunction, AbiEvent, AbiError, AbiBlob, EventParam, TypeSpec, FunctionSpec, ParamSpec, EventSpec, ErrorSpec, BlobSpec,
    T_UINT256, T_ADDRESS, T_BOOL, T_BYTES32, T_STRING, T_BYTES, T_UINT8, T_UINT16, T_UINT32,
    T_UINT64, T_UINT128, T_BYTES_N, MOD_ARRAY, MOD_TUPLE, ENTRY_FUNCTION, ENTRY_EVENT, ENTRY_ERROR,
};
use super::keccak;
use crate::text;

verus! {

/// The low byte of `n`: what a truncating cast to `u8` keeps.
pub open spec fn byte_of(n: nat) -> u8 {
    (n % 256) as u8
}

/// The two bytes, big-endian, of `n` truncated to 16 bits.
pub open spec fn u16_be(n: nat) -> Seq<u8> {
    let v = n % 65536;
    seq![(v / 256) as u8, (v % 256) as u8]
}

/// The binary encoding of one type: its tag, then what the tag announces.
pub open spec fn enc_type(t: TypeSpec) -> Seq<u8>
    decreases t,
{
    match t {
        TypeSpec::Uint256 => seq![T_UINT256],
        TypeSpec::Uint8 => seq![T_UINT8],
        TypeSpec::Uint16 => seq![T_UINT16],
        TypeSpec::Uint32 => seq![T_UINT32],
        TypeSpec::Uint64 => seq![T_UINT64],
        TypeSpec::Uint128 => seq![T_UINT128],
        TypeSpec::Address => seq![T_ADDRESS],
        TypeSpec::Bool => seq![T_BOOL],
        TypeSpec::Bytes32 => seq![T_BYTES32],
        TypeSpec::BytesN(n) => seq![T_BYTES_N, n],
        TypeSpec::AbiString => seq![T_STRING],
        TypeSpec::Bytes => seq![T_BYTES],
        TypeSpec::Array(inner) => seq![MOD_ARRAY] + enc_type(*inner),
        TypeSpec::Tuple(fields) => seq![MOD_TUPLE, byte_of(fields.len())] + enc_types(fields),
    }
}

/// The encodings of `ts`, one after the other.
pub open spec fn enc_types(ts: Seq<TypeSpec>) -> Seq<u8>
    decreases ts,
{
    if ts.len() == 0 {
        Seq::empty()
    } else {
        enc_types(ts.drop_last()) + enc_type(ts.last())
    }
}

/// The text of a name in a signature: the name itself where its bytes are UTF-8, else `unknown`.
pub open spec fn spec_name_text(name: Seq<u8>) -> Seq<char> {
    if valid_utf8(name) {
        decode_utf8(name)
    } else {
        "unknown"@
    }
}

/// The canonical signature `name(T1,T2,...)`.
pub open spec fn spec_signature(name: Seq<u8>, ts: Seq<TypeSpec>) -> Seq<char> {
    spec_name_text(name) + "("@ + abi::spec_canonical_list(ts) + ")"@
}

/// The 4-byte selector of a signature: the first four bytes of the Keccak-256 of its UTF-8 bytes.
pub open spec fn spec_selector(sig: Seq<char>) -> Seq<u8> {
    let h = keccak::spec_keccak256(encode_utf8(sig));
    seq![h[0], h[1], h[2], h[3]]
}

/// The payload of a function entry.
pub open spec fn enc_function(f: FunctionSpec) -> Seq<u8> {
    spec_selector(spec_signature(f.name, f.inputs)) + seq![byte_of(f.name.len())] + f.name
        + seq![byte_of(f.inputs.len())] + enc_types(f.inputs) + seq![byte_of(f.outputs.len())]
        + enc_types(f.outputs)
}

/// The encoding of an event parameter: its indexed flag, then its type.
pub open spec fn enc_param(p: ParamSpec) -> Seq<u8> {
    seq![if p.indexed { 1u8 } else { 0u8 }] + enc_type(p.ty)
}

/// The encodings of event parameters, one after the other.
pub open spec fn enc_params(ps: Seq<ParamSpec>) -> Seq<u8>
    decreases ps.len(),
{
    if ps.len() == 0 {
        Seq::empty()
    } else {
        enc_params(ps.drop_last()) + enc_param(ps.last())
    }
}

/// The payload of an event entry (no selector is stored for events).
pub open spec fn enc_event(e: EventSpec) -> Seq<u8> {
    seq![byte_of(e.name.len())] + e.name + seq![byte_of(e.params.len())] + enc_params(e.params)
}

/// The payload of an error entry.
pub open spec fn enc_error(e: ErrorSpec) -> Seq<u8> {
    spec_selector(spec_signature(e.name, e.params)) + seq![byte_of(e.name.len())] + e.name
        + seq![byte_of(e.params.len())] + enc_types(e.params)
}

/// One entry of a blob.
pub enum EntrySpec {
    Function(FunctionSpec),
    Event(EventSpec),
    Error(ErrorSpec),
}

/// The kind byte of an entry.
pub open spec fn entry_kind(e: EntrySpec) -> u8 {
    match e {
        EntrySpec::Function(_) => ENTRY_FUNCTION,
        EntrySpec::Event(_) => ENTRY_EVENT,
        EntrySpec::Error(_) => ENTRY_ERROR,
    }
}

/// The payload of an entry.
pub open spec fn entry_payload(e: EntrySpec) -> Seq<u8> {
    match e {
        EntrySpec::Function(f) => enc_function(f),
        EntrySpec::Event(v) => enc_event(v),
        EntrySpec::Error(r) => enc_error(r),
    }
}

/// An entry on the wire: kind, payload length (u16, big-endian), payload.
pub open spec fn enc_entry(e: EntrySpec) -> Seq<u8> {
    seq![entry_kind(e)] + u16_be(entry_payload(e).len()) + entry_payload(e)
}

/// Entries on the wire, one after the other.
pub open spec fn enc_entries(es: Seq<EntrySpec>) -> Seq<u8>
    decreases es.len(),
{
    if es.len() == 0 {
        Seq::empty()
    } else {
        enc_entries(es.drop_last()) + enc_entry(es.last())
    }
}

/// The entries of a blob in the order they are written: functions, events, errors.
pub open spec fn blob_entries(b: BlobSpec) -> Seq<EntrySpec> {
    b.functions.map_values(|f: FunctionSpec| EntrySpec::Function(f))
        + b.events.map_values(|v: EventSpec| EntrySpec::Event(v))
        + b.errors.map_values(|r: ErrorSpec| EntrySpec::Error(r))
}

/// The whole blob: the entry count (one byte), then every entry.
pub open spec fn enc_blob(b: BlobSpec) -> Seq<u8> {
    seq![byte_of(b.functions.len() + b.events.len() + b.errors.len())] + enc_entries(blob_entries(b))
}

/// Appends every byte of `src` to `buf`.
fn append_bytes(buf: &mut Vec<u8>, src: &[u8])
    ensures
        final(buf)@ == old(buf)@ + src@,
{
    let mut i: usize = 0;
    while i < src.len()
        invariant
            i <= src@.len(),
            buf@ == old(buf)@ + src@.take(i as int),
        decreases src@.len() - i,
    {
        buf.push(src[i]);
        i = i + 1;
        assert(src@.take(i as int) =~= src@.take(i as int - 1).push(src@[i as int - 1]));
    }
    assert(src@.take(src@.len() as int) =~= src@);
}

/// Appends the binary encoding of `ty` to `buf`.
pub fn encode_type(ty: &AbiType, buf: &mut Vec<u8>)
    ensures
        final(buf)@ == old(buf)@ + enc_type(ty@),
    decreases ty,
{
    match ty {
        AbiType::Uint256 => buf.push(T_UINT256),
        AbiType::Uint8 => buf.push(T_UINT8),
        AbiType::Uint16 => buf.push(T_UINT16),
        AbiType::Uint32 => buf.push(T_UINT32),
        AbiType::Uint64 => buf.push(T_UINT64),
        AbiType::Uint128 => buf.push(T_UINT128),
        AbiType::Address => buf.push(T_ADDRESS),
        AbiType::Bool => buf.push(T_BOOL),
        AbiType::Bytes32 => buf.push(T_BYTES32),
        AbiType::BytesN(n) => {
            buf.push(T_BYTES_N);
            buf.push(*n);
            assert(buf@ =~= old(buf)@ + enc_type(ty@));
        },
        AbiType::AbiString => buf.push(T_STRING),
        AbiType::Bytes => buf.push(T_BYTES),
        AbiType::Array(inner) => {
            buf.push(MOD_ARRAY);
            encode_type(inner, buf);
            assert(buf@ =~= old(buf)@ + enc_type(ty@));
        },
        AbiType::Tuple(fields) => {
            buf.push(MOD_TUPLE);
            buf.push((fields.len() % 256) as u8);
            proof {
                abi::lemma_types_view(fields@);
            }
            encode_types(fields, buf);
            assert(buf@ =~= old(buf)@ + enc_type(ty@));
        },
    }
}

/// Appends the encodings of `ts`, in order, to `buf`.
pub fn encode_types(ts: &Vec<AbiType>, buf: &mut Vec<u8>)
    ensures
        final(buf)@ == old(buf)@ + enc_types(abi::types_view(ts@)),
    decreases ts,
{
    proof {
        abi::lemma_types_view(ts@);
    }
    let ghost tv = abi::types_view(ts@);
    let mut i: usize = 0;
    while i < ts.len()
        invariant
            i <= ts.len(),
            tv == abi::types_view(ts@),
            tv.len() == ts@.len(),
            forall|j: int| 0 <= j < ts@.len() ==> #[trigger] tv[j] == ts@[j]@,
            buf@ == old(buf)@ + enc_types(tv.take(i as int)),
        decreases ts.len() - i,
    {
        proof {
            assert(decreases_to!(ts => ts@[i as int]));
        }
        encode_type(&ts[i], buf);
        proof {
            let t1 = tv.take(i as int + 1);
            assert(t1.drop_last() =~= tv.take(i as int));
            assert(t1.last() == tv[i as int]);
        }
        i = i + 1;
    }
    assert(tv.take(ts.len() as int) =~= tv);
}


/// The canonical signature of a name and a parameter list, shared by functions and errors.
fn signature(name: &[u8], params: &Vec<AbiType>) -> (s: String)
    ensures
        s@ == spec_signature(name@, abi::types_view(params@)),
{
    let mut s = match text::utf8_str(name) {
        Some(n) => {
            proof {
                encode_utf8_decode_utf8(n@);
            }
            String::from_str(n)
        },
        None => String::from_str("unknown"),
    };
    s.append("(");
    let c = abi::canonical_list(params);
    s.append(c.as_str());
    s.append(")");
    s
}

/// The signature `name(T1,...)` of a function.
fn fn_sig(name: &[u8], inputs: &Vec<AbiType>) -> (s: String)
    ensures
        s@ == spec_signature(name@, abi::types_view(inputs@)),
{
    signature(name, inputs)
}

/// The signature `name(T1,...)` of an error.
fn error_sig(name: &[u8], params: &Vec<AbiType>) -> (s: String)
    ensures
        s@ == spec_signature(name@, abi::types_view(params@)),
{
    signature(name, params)
}

/// The first four bytes of the Keccak-256 of the signature's UTF-8 bytes.
fn selector(sig: &str) -> (sel: [u8; 4])
    ensures
        sel@ == spec_selector(sig@),
{
    let h = keccak::keccak256(sig.as_bytes());
    let sel = [h[0], h[1], h[2], h[3]];
    assert(sel@ =~= spec_selector(sig@));
    sel
}

/// The types of event parameters, in order.
pub open spec fn spec_param_types(ps: Seq<ParamSpec>) -> Seq<TypeSpec> {
    ps.map_values(|p: ParamSpec| p.ty)
}

/// The canonical signature `Name(T1,T2,...)` of an event. Events store no hash; their
/// topic0 is recomputed from this signature.
pub fn event_sig(name: &[u8], params: &Vec<EventParam>) -> (s: String)
    ensures
        s@ == spec_signature(name@, spec_param_types(params@.map_values(|p: EventParam| p@))),
{
    let ghost tv = spec_param_types(params@.map_values(|p: EventParam| p@));
    let mut s = match text::utf8_str(name) {
        Some(n) => {
            proof {
                encode_utf8_decode_utf8(n@);
            }
            String::from_str(n)
        },
        None => String::from_str("unknown"),
    };
    s.append("(");
    let ghost start = s@;
    let mut i: usize = 0;
    while i < params.len()
        invariant
            i <= params.len(),
            tv == spec_param_types(params@.map_values(|p: EventParam| p@)),
            tv.len() == params@.len(),
            forall|j: int| 0 <= j < params@.len() ==> #[trigger] tv[j] == params@[j].ty@,
            s@ == start + abi::spec_canonical_list(tv.take(i as int)),
        decreases params.len() - i,
    {
        if i > 0 {
            s.append(",");
        }
        let c = params[i].ty.canonical();
        s.append(c.as_str());
        proof {
            let t1 = tv.take(i as int + 1);
            assert(t1.drop_last() =~= tv.take(i as int));
            assert(t1.last() == tv[i as int]);
            if i == 0 {
                assert(t1.len() == 1);
                assert(t1[0] == tv[0]);
            }
        }
        i = i + 1;
    }
    assert(tv.take(params.len() as int) =~= tv);
    s.append(")");
    s
}

/// The topic0 of an event: the Keccak-256 of its signature's UTF-8 bytes.
pub fn topic0(sig: &str) -> (h: [u8; 32])
    ensures
        h@ == keccak::spec_keccak256(encode_utf8(sig@)),
{
    keccak::keccak256(sig.as_bytes())
}

/// The payload of a function entry.
fn encode_function(f: &AbiFunction) -> (buf: Vec<u8>)
    ensures
        buf@ == enc_function(f@),
{
    let sig = fn_sig(&f.name, &f.inputs);
    let sel = selector(sig.as_str());
    let mut buf: Vec<u8> = Vec::new();
    append_bytes(&mut buf, &sel);
    buf.push((f.name.len() % 256) as u8);
    append_bytes(&mut buf, f.name.as_slice());
    buf.push((f.inputs.len() % 256) as u8);
    proof {
        abi::lemma_types_view(f.inputs@);
        abi::lemma_types_view(f.outputs@);
    }
    encode_types(&f.inputs, &mut buf);
    buf.push((f.outputs.len() % 256) as u8);
    encode_types(&f.outputs, &mut buf);
    assert(buf@ =~= enc_function(f@));
    buf
}

/// The payload of an event entry.
fn encode_event(e: &AbiEvent) -> (buf: Vec<u8>)
    ensures
        buf@ == enc_event(e@),
{
    let mut buf: Vec<u8> = Vec::new();
    buf.push((e.name.len() % 256) as u8);
    append_bytes(&mut buf, e.name.as_slice());
    buf.push((e.params.len() % 256) as u8);
    let ghost start = buf@;
    let ghost ps = e@.params;
    let mut i: usize = 0;
    while i < e.params.len()
        invariant
            i <= e.params.len(),
            ps == e@.params,
            ps.len() == e.params@.len(),
            buf@ == start + enc_params(ps.take(i as int)),
        decreases e.params.len() - i,
    {
        let p = &e.params[i];
        buf.push(if p.indexed { 0x01u8 } else { 0x00u8 });
        encode_type(&p.ty, &mut buf);
        proof {
            let t1 = ps.take(i as int + 1);
            assert(t1.drop_last() =~= ps.take(i as int));
            assert(t1.last() == p@);
        }
        i = i + 1;
    }
    assert(ps.take(e.params.len() as int) =~= ps);
    assert(buf@ =~= enc_event(e@));
    buf
}

/// The payload of an error entry.
fn encode_error(e: &AbiError) -> (buf: Vec<u8>)
    ensures
        buf@ == enc_error(e@),
{
    let sig = error_sig(&e.name, &e.params);
    let sel = selector(sig.as_str());
    let mut buf: Vec<u8> = Vec::new();
    append_bytes(&mut buf, &sel);
    buf.push((e.name.len() % 256) as u8);
    append_bytes(&mut buf, e.name.as_slice());
    buf.push((e.params.len() % 256) as u8);
    proof {
        abi::lemma_types_view(e.params@);
    }
    encode_types(&e.params, &mut buf);
    assert(buf@ =~= enc_error(e@));
    buf
}

/// Appends one entry: kind, payload length (u16 big-endian, truncated), payload.
fn push_entry(out: &mut Vec<u8>, kind: u8, data: &Vec<u8>)
    ensures
        final(out)@ == old(out)@ + seq![kind] + u16_be(data@.len()) + data@,
{
    out.push(kind);
    let n: u16 = (data.len() % 65536) as u16;
    out.push((n / 256) as u8);
    out.push((n % 256) as u8);
    append_bytes(out, data.as_slice());
    assert(final(out)@ =~= old(out)@ + seq![kind] + u16_be(data@.len()) + data@);
}

/// `enc_entries` of one more entry appends that entry's bytes.
proof fn lemma_enc_entries_step(es: Seq<EntrySpec>, i: int)
    requires
        0 <= i < es.len(),
    ensures
        enc_entries(es.take(i + 1)) == enc_entries(es.take(i)) + enc_entry(es[i]),
{
    let t1 = es.take(i + 1);
    assert(t1.drop_last() =~= es.take(i));
    assert(t1.last() == es[i]);
}

/// The low byte of the total entry count.
#[verifier::spinoff_prover]
#[verifier::rlimit(40)]
fn count_byte(nf: usize, ne: usize, nr: usize) -> (c: u8)
    ensures
        c == byte_of((nf + ne + nr) as nat),
{
    proof {
        vstd::arithmetic::div_mod::lemma_add_mod_noop(nf as int, ne as int, 256);
        vstd::arithmetic::div_mod::lemma_add_mod_noop(nf + ne, nr as int, 256);
        vstd::arithmetic::div_mod::lemma_add_mod_noop((nf % 256) + (ne % 256), nr as int, 256);
        vstd::arithmetic::div_mod::lemma_mod_twice((nf % 256) + (ne % 256), 256);
    }
    let a = nf % 256;
    let b = ne % 256;
    let c = nr % 256;
    ((a + b + c) % 256) as u8
}

/// The whole binary blob: entry count, then functions, events and errors, in order.
pub fn encode_blob(blob: &AbiBlob) -> (out: Vec<u8>)
    ensures
        out@ == enc_blob(blob@),
{
    let ghost b = blob@;
    let ghost es = blob_entries(b);
    let nf = blob.functions.len();
    let ne = blob.events.len();
    let nr = blob.errors.len();
    let total = count_byte(nf, ne, nr);
    let mut out: Vec<u8> = Vec::new();
    out.push(total);
    assert(es.len() == nf + ne + nr);
    assert(es.take(0) =~= Seq::<EntrySpec>::empty());
    let mut i: usize = 0;
    while i < nf
        invariant
            i <= nf,
            nf == blob.functions@.len(),
            b == blob@,
            es == blob_entries(b),
            es.len() == nf + ne + nr,
            out@ == seq![total] + enc_entries(es.take(i as int)),
        decreases nf - i,
    {
        let data = encode_function(&blob.functions[i]);
        push_entry(&mut out, 0x01u8, &data);
        proof {
            assert(es[i as int] == EntrySpec::Function(b.functions[i as int]));
            lemma_enc_entries_step(es, i as int);
        }
        i = i + 1;
    }
    let mut j: usize = 0;
    while j < ne
        invariant
            j <= ne,
            nf == blob.functions@.len(),
            ne == blob.events@.len(),
            b == blob@,
            es == blob_entries(b),
            es.len() == nf + ne + nr,
            out@ == seq![total] + enc_entries(es.take(nf + j)),
        decreases ne - j,
    {
        let data = encode_event(&blob.events[j]);
        push_entry(&mut out, 0x02u8, &data);
        proof {
            assert(es[nf + j] == EntrySpec::Event(b.events[j as int]));
            lemma_enc_entries_step(es, nf + j);
        }
        j = j + 1;
    }
    let mut k: usize = 0;
    while k < nr
        invariant
            k <= nr,
            nf == blob.functions@.len(),
            ne == blob.events@.len(),
            nr == blob.errors@.len(),
            b == blob@,
            es == blob_entries(b),
            es.len() == nf + ne + nr,
            out@ == seq![total] + enc_entries(es.take(nf + ne + k)),
        decreases nr - k,
    {
        let data = encode_error(&blob.errors[k]);
        push_entry(&mut out, 0x03u8, &data);
        proof {
            assert(es[nf + ne + k] == EntrySpec::Error(b.errors[k as int]));
            lemma_enc_entries_step(es, nf + ne + k);
        }
        k = k + 1;
    }
    assert(es.take(nf + ne + nr) =~= es);
    out
}


/// The stem of a path, or nothing where it has none.
pub open spec fn spec_stem_or_empty(path: Seq<char>) -> Seq<char> {
    match text::spec_file_stem(path) {
        Some(s) => s,
        None => Seq::empty(),
    }
}

/// Where the binary encoding of the JSON file `src` is written: `<stem>.abi.bin` beside it.
pub open spec fn spec_encoded_path(src: Seq<char>) -> Seq<char> {
    text::spec_with_file_name(src, spec_stem_or_empty(src) + ".abi.bin"@)
}

/// The path `<stem>.abi.bin` beside `src`.
pub fn output_path(src: &str) -> (p: String)
    ensures
        p@ == spec_encoded_path(src@),
{
    let mut name = match text::file_stem(src) {
        Some(s) => s,
        None => String::new(),
    };
    name.append(".abi.bin");
    text::with_file_name(src, name.as_str())
}

/// Whether a file found while collecting is encoded: a `.json` extension in any ASCII case,
/// and a path that does not end in `.abi.bin`.
pub open spec fn spec_is_json_source(path: Seq<char>) -> bool {
    &&& !(".abi.bin"@.len() <= path.len() && path.skip(path.len() - ".abi.bin"@.len()) == ".abi.bin"@)
    &&& text::spec_file_name(path) matches Some(n)
    &&& text::spec_extension_of_name(n) matches Some(e)
    &&& text::spec_eq_ignore_ascii_case(e, "json"@)
}

/// Whether the file at `path` is a JSON ABI to encode.
pub fn is_json_source(path: &str) -> (b: bool)
    ensures
        b == spec_is_json_source(path@),
{
    if text::ends_with(path, ".abi.bin") {
        return false;
    }
    match text::extension(path) {
        Some(e) => text::eq_ignore_ascii_case(e.as_str(), "json"),
        None => false,
    }
}

} // verus!
