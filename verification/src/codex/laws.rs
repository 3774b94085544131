use vstd::prelude::*;
use crate::text;
use super::abi::{T_UINT256, T_ADDRESS, T_BOOL, T_BYTES32, T_STRING, T_BYTES, T_UINT8, T_UINT16,
    T_UINT32, T_UINT64, T_UINT128, T_BYTES_N, MOD_ARRAY, MOD_TUPLE, ENTRY_FUNCTION, ENTRY_EVENT,
    ENTRY_ERROR, TypeSpec, FunctionSpec, ParamSpec, EventSpec, ErrorSpec, BlobSpec};
use super::encode::{self, EntrySpec};
use super::decode::{self, DecodeError};

verus! {

/// A type the encoder writes without truncation: every tuple has at most 255 fields.
pub open spec fn wf_type(t: TypeSpec) -> bool
    decreases t,
{
    match t {
        TypeSpec::Array(inner) => wf_type(*inner),
        TypeSpec::Tuple(fields) => fields.len() <= 255 && wf_types(fields),
        _ => true,
    }
}

/// Every type of `ts` is well-formed.
pub open spec fn wf_types(ts: Seq<TypeSpec>) -> bool
    decreases ts,
{
    ts.len() == 0 || (wf_types(ts.drop_last()) && wf_type(ts.last()))
}

/// Every parameter type of `ps` is well-formed.
pub open spec fn wf_params(ps: Seq<ParamSpec>) -> bool
    decreases ps.len(),
{
    ps.len() == 0 || (wf_params(ps.drop_last()) && wf_type(ps.last().ty))
}

/// A function whose name and lists fit their one-byte lengths and whose payload fits its
/// two-byte length.
pub open spec fn wf_function(f: FunctionSpec) -> bool {
    &&& f.name.len() <= 255
    &&& f.inputs.len() <= 255
    &&& f.outputs.len() <= 255
    &&& wf_types(f.inputs)
    &&& wf_types(f.outputs)
    &&& encode::enc_function(f).len() <= 65535
}

/// An event whose name and parameters fit their lengths.
pub open spec fn wf_event(e: EventSpec) -> bool {
    &&& e.name.len() <= 255
    &&& e.params.len() <= 255
    &&& wf_params(e.params)
    &&& encode::enc_event(e).len() <= 65535
}

/// An error whose name and parameters fit their lengths.
pub open spec fn wf_error(e: ErrorSpec) -> bool {
    &&& e.name.len() <= 255
    &&& e.params.len() <= 255
    &&& wf_types(e.params)
    &&& encode::enc_error(e).len() <= 65535
}

/// An entry that fits every length field of the format.
pub open spec fn wf_entry(e: EntrySpec) -> bool {
    match e {
        EntrySpec::Function(f) => wf_function(f),
        EntrySpec::Event(v) => wf_event(v),
        EntrySpec::Error(r) => wf_error(r),
    }
}

/// A blob that fits every length field of the format: at most 255 entries, each well-formed.
pub open spec fn wf_blob(b: BlobSpec) -> bool {
    &&& b.functions.len() + b.events.len() + b.errors.len() <= 255
    &&& forall|i: int| 0 <= i < b.functions.len() ==> wf_function(#[trigger] b.functions[i])
    &&& forall|i: int| 0 <= i < b.events.len() ==> wf_event(#[trigger] b.events[i])
    &&& forall|i: int| 0 <= i < b.errors.len() ==> wf_error(#[trigger] b.errors[i])
}

/// A well-formed type decodes back from its encoding, whatever follows it, and the decoder
/// takes exactly the encoded bytes.
pub proof fn lemma_type_roundtrip(t: TypeSpec, sfx: Seq<u8>)
    requires
        wf_type(t),
    ensures
        decode::parse_type(encode::enc_type(t) + sfx) == Ok::<(TypeSpec, nat), DecodeError>(
            (t, encode::enc_type(t).len()),
        ),
    decreases t,
{
    let s = encode::enc_type(t) + sfx;
    match t {
        TypeSpec::Array(inner) => {
            assert(s.skip(1) =~= encode::enc_type(*inner) + sfx);
            lemma_type_roundtrip(*inner, sfx);
        },
        TypeSpec::Tuple(fields) => {
            assert(s.skip(2) =~= encode::enc_types(fields) + sfx);
            lemma_types_roundtrip(fields, sfx);
        },
        _ => {},
    }
}

/// Well-formed types decode back from their concatenated encodings.
pub proof fn lemma_types_roundtrip(ts: Seq<TypeSpec>, sfx: Seq<u8>)
    requires
        wf_types(ts),
    ensures
        decode::parse_types(encode::enc_types(ts) + sfx, ts.len())
            == Ok::<(Seq<TypeSpec>, nat), DecodeError>((ts, encode::enc_types(ts).len())),
    decreases ts,
{
    let s = encode::enc_types(ts) + sfx;
    if ts.len() > 0 {
        let init = ts.drop_last();
        let last = ts.last();
        let e_init = encode::enc_types(init);
        let e_last = encode::enc_type(last);
        assert(s =~= e_init + (e_last + sfx));
        lemma_types_roundtrip(init, e_last + sfx);
        assert(init.len() == (ts.len() - 1) as nat);
        assert(s.skip(e_init.len() as int) =~= e_last + sfx);
        lemma_type_roundtrip(last, sfx);
        assert(init.push(last) =~= ts);
        assert(encode::enc_types(ts) == e_init + e_last);
        assert(decode::parse_types(s, (ts.len() - 1) as nat) == Ok::<(Seq<TypeSpec>, nat), DecodeError>((init, e_init.len())));
    } else {
        assert(ts =~= Seq::<TypeSpec>::empty());
    }
}

/// A name fitting its one-byte length decodes back, whatever follows.
pub proof fn lemma_name_roundtrip(name: Seq<u8>, sfx: Seq<u8>)
    requires
        name.len() <= 255,
    ensures
        decode::parse_name(seq![encode::byte_of(name.len())] + name + sfx)
            == Ok::<(Seq<u8>, nat), DecodeError>((name, 1 + name.len())),
{
    let s = seq![encode::byte_of(name.len())] + name + sfx;
    assert(s.subrange(1, 1 + name.len() as int) =~= name);
}

/// Well-formed event parameters decode back from their concatenated encodings.
pub proof fn lemma_params_roundtrip(ps: Seq<ParamSpec>, sfx: Seq<u8>)
    requires
        wf_params(ps),
    ensures
        decode::parse_params(encode::enc_params(ps) + sfx, ps.len())
            == Ok::<(Seq<ParamSpec>, nat), DecodeError>((ps, encode::enc_params(ps).len())),
    decreases ps.len(),
{
    let s = encode::enc_params(ps) + sfx;
    if ps.len() > 0 {
        let init = ps.drop_last();
        let last = ps.last();
        let e_init = encode::enc_params(init);
        let e_last = encode::enc_param(last);
        assert(s =~= e_init + (e_last + sfx));
        lemma_params_roundtrip(init, e_last + sfx);
        let r = s.skip(e_init.len() as int);
        assert(r =~= e_last + sfx);
        assert(r.skip(1) =~= encode::enc_type(last.ty) + sfx);
        lemma_type_roundtrip(last.ty, sfx);
        assert((r[0] % 2 == 1) == last.indexed);
        assert(init.push(ParamSpec { ty: last.ty, indexed: last.indexed }) =~= ps);
        assert(init.len() == (ps.len() - 1) as nat);
        assert(encode::enc_params(ps) == e_init + e_last);
        assert(decode::parse_params(s, (ps.len() - 1) as nat) == Ok::<(Seq<ParamSpec>, nat), DecodeError>((init, e_init.len())));
    } else {
        assert(ps =~= Seq::<ParamSpec>::empty());
    }
}

/// A well-formed function payload decodes back to the function.
pub proof fn lemma_function_roundtrip(f: FunctionSpec)
    requires
        wf_function(f),
    ensures
        decode::parse_function(encode::enc_function(f)) == Ok::<FunctionSpec, DecodeError>(f),
{
    let sel = encode::spec_selector(encode::spec_signature(f.name, f.inputs));
    let ei = encode::enc_types(f.inputs);
    let eo = encode::enc_types(f.outputs);
    let tail = seq![encode::byte_of(f.inputs.len())] + ei + seq![encode::byte_of(f.outputs.len())] + eo;
    let s = encode::enc_function(f);
    let s1 = s.skip(4);
    assert(s1 =~= seq![encode::byte_of(f.name.len())] + f.name + tail);
    lemma_name_roundtrip(f.name, tail);
    let s2 = s1.skip(1 + f.name.len() as int);
    assert(s2 =~= tail);
    let rest = seq![encode::byte_of(f.outputs.len())] + eo;
    assert(s2.skip(1) =~= ei + rest);
    lemma_types_roundtrip(f.inputs, rest);
    let s3 = s2.skip(1).skip(ei.len() as int);
    assert(s3 =~= rest);
    assert(s3.skip(1) =~= eo + Seq::<u8>::empty());
    lemma_types_roundtrip(f.outputs, Seq::<u8>::empty());
}

/// A well-formed event payload decodes back to the event.
pub proof fn lemma_event_roundtrip(e: EventSpec)
    requires
        wf_event(e),
    ensures
        decode::parse_event(encode::enc_event(e)) == Ok::<EventSpec, DecodeError>(e),
{
    let ep = encode::enc_params(e.params);
    let tail = seq![encode::byte_of(e.params.len())] + ep;
    let s = encode::enc_event(e);
    assert(s =~= seq![encode::byte_of(e.name.len())] + e.name + tail);
    lemma_name_roundtrip(e.name, tail);
    let s2 = s.skip(1 + e.name.len() as int);
    assert(s2 =~= tail);
    assert(s2.skip(1) =~= ep + Seq::<u8>::empty());
    lemma_params_roundtrip(e.params, Seq::<u8>::empty());
}

/// A well-formed error payload decodes back to the error.
pub proof fn lemma_error_roundtrip(e: ErrorSpec)
    requires
        wf_error(e),
    ensures
        decode::parse_error(encode::enc_error(e)) == Ok::<ErrorSpec, DecodeError>(e),
{
    let ep = encode::enc_types(e.params);
    let tail = seq![encode::byte_of(e.params.len())] + ep;
    let s = encode::enc_error(e);
    let s1 = s.skip(4);
    assert(s1 =~= seq![encode::byte_of(e.name.len())] + e.name + tail);
    lemma_name_roundtrip(e.name, tail);
    let s2 = s1.skip(1 + e.name.len() as int);
    assert(s2 =~= tail);
    assert(s2.skip(1) =~= ep + Seq::<u8>::empty());
    lemma_types_roundtrip(e.params, Seq::<u8>::empty());
}

/// A well-formed entry decodes back from its framing, whatever follows.
pub proof fn lemma_entry_roundtrip(e: EntrySpec, sfx: Seq<u8>)
    requires
        wf_entry(e),
    ensures
        decode::parse_entry(encode::enc_entry(e) + sfx)
            == Ok::<(EntrySpec, nat), DecodeError>((e, encode::enc_entry(e).len())),
{
    let p = encode::entry_payload(e);
    let s = encode::enc_entry(e) + sfx;
    let v = p.len() % 65536;
    assert(v == p.len());
    assert(s[1] as nat * 256 + s[2] as nat == p.len());
    assert(s.subrange(3, 3 + p.len() as int) =~= p);
    match e {
        EntrySpec::Function(f) => lemma_function_roundtrip(f),
        EntrySpec::Event(v) => lemma_event_roundtrip(v),
        EntrySpec::Error(r) => lemma_error_roundtrip(r),
    }
}

/// Well-formed entries decode back from their concatenated framings.
pub proof fn lemma_entries_roundtrip(es: Seq<EntrySpec>, sfx: Seq<u8>)
    requires
        forall|i: int| 0 <= i < es.len() ==> wf_entry(#[trigger] es[i]),
    ensures
        decode::parse_entries(encode::enc_entries(es) + sfx, es.len())
            == Ok::<(Seq<EntrySpec>, nat), DecodeError>((es, encode::enc_entries(es).len())),
    decreases es.len(),
{
    let s = encode::enc_entries(es) + sfx;
    if es.len() > 0 {
        let init = es.drop_last();
        let last = es.last();
        let e_init = encode::enc_entries(init);
        let e_last = encode::enc_entry(last);
        assert(s =~= e_init + (e_last + sfx));
        assert forall|i: int| 0 <= i < init.len() implies wf_entry(#[trigger] init[i]) by {
            assert(init[i] == es[i]);
        }
        lemma_entries_roundtrip(init, e_last + sfx);
        assert(s.skip(e_init.len() as int) =~= e_last + sfx);
        assert(wf_entry(es[es.len() - 1]));
        lemma_entry_roundtrip(last, sfx);
        assert(init.push(last) =~= es);
        assert(init.len() == (es.len() - 1) as nat);
        assert(encode::enc_entries(es) == e_init + e_last);
        assert(decode::parse_entries(s, (es.len() - 1) as nat) == Ok::<(Seq<EntrySpec>, nat), DecodeError>((init, e_init.len())));
    } else {
        assert(es =~= Seq::<EntrySpec>::empty());
    }
}

/// Grouping entries distributes over concatenation.
pub proof fn lemma_group_append(a: Seq<EntrySpec>, b: Seq<EntrySpec>)
    ensures
        decode::functions_of(a + b) == decode::functions_of(a) + decode::functions_of(b),
        decode::events_of(a + b) == decode::events_of(a) + decode::events_of(b),
        decode::errors_of(a + b) == decode::errors_of(a) + decode::errors_of(b),
    decreases b.len(),
{
    if b.len() == 0 {
        assert(a + b =~= a);
        assert(decode::functions_of(a) + decode::functions_of(b) =~= decode::functions_of(a));
        assert(decode::events_of(a) + decode::events_of(b) =~= decode::events_of(a));
        assert(decode::errors_of(a) + decode::errors_of(b) =~= decode::errors_of(a));
    } else {
        assert((a + b).drop_last() =~= a + b.drop_last());
        assert((a + b).last() == b.last());
        lemma_group_append(a, b.drop_last());
        assert(decode::functions_of(a) + decode::functions_of(b.drop_last()).push(
            b.last()->Function_0,
        ) =~= (decode::functions_of(a) + decode::functions_of(b.drop_last())).push(
            b.last()->Function_0,
        ));
        assert(decode::events_of(a) + decode::events_of(b.drop_last()).push(b.last()->Event_0)
            =~= (decode::events_of(a) + decode::events_of(b.drop_last())).push(
            b.last()->Event_0,
        ));
        assert(decode::errors_of(a) + decode::errors_of(b.drop_last()).push(b.last()->Error_0)
            =~= (decode::errors_of(a) + decode::errors_of(b.drop_last())).push(
            b.last()->Error_0,
        ));
    }
}

/// Function entries group back to the functions.
pub proof fn lemma_group_functions(fs: Seq<FunctionSpec>)
    ensures
        decode::functions_of(fs.map_values(|f: FunctionSpec| EntrySpec::Function(f))) == fs,
        decode::events_of(fs.map_values(|f: FunctionSpec| EntrySpec::Function(f))) == Seq::<EventSpec>::empty(),
        decode::errors_of(fs.map_values(|f: FunctionSpec| EntrySpec::Function(f))) == Seq::<ErrorSpec>::empty(),
    decreases fs.len(),
{
    let m = fs.map_values(|f: FunctionSpec| EntrySpec::Function(f));
    if fs.len() > 0 {
        assert(m.drop_last() =~= fs.drop_last().map_values(|f: FunctionSpec| EntrySpec::Function(f)));
        lemma_group_functions(fs.drop_last());
        assert(fs.drop_last().push(fs.last()) =~= fs);
    } else {
        assert(m.len() == 0);
    }
}

/// Event entries group back to the events.
pub proof fn lemma_group_events(vs: Seq<EventSpec>)
    ensures
        decode::functions_of(vs.map_values(|v: EventSpec| EntrySpec::Event(v))) == Seq::<FunctionSpec>::empty(),
        decode::events_of(vs.map_values(|v: EventSpec| EntrySpec::Event(v))) == vs,
        decode::errors_of(vs.map_values(|v: EventSpec| EntrySpec::Event(v))) == Seq::<ErrorSpec>::empty(),
    decreases vs.len(),
{
    let m = vs.map_values(|v: EventSpec| EntrySpec::Event(v));
    if vs.len() > 0 {
        assert(m.drop_last() =~= vs.drop_last().map_values(|v: EventSpec| EntrySpec::Event(v)));
        lemma_group_events(vs.drop_last());
        assert(vs.drop_last().push(vs.last()) =~= vs);
    } else {
        assert(m.len() == 0);
    }
}

/// Error entries group back to the errors.
pub proof fn lemma_group_errors(rs: Seq<ErrorSpec>)
    ensures
        decode::functions_of(rs.map_values(|r: ErrorSpec| EntrySpec::Error(r))) == Seq::<FunctionSpec>::empty(),
        decode::events_of(rs.map_values(|r: ErrorSpec| EntrySpec::Error(r))) == Seq::<EventSpec>::empty(),
        decode::errors_of(rs.map_values(|r: ErrorSpec| EntrySpec::Error(r))) == rs,
    decreases rs.len(),
{
    let m = rs.map_values(|r: ErrorSpec| EntrySpec::Error(r));
    if rs.len() > 0 {
        assert(m.drop_last() =~= rs.drop_last().map_values(|r: ErrorSpec| EntrySpec::Error(r)));
        lemma_group_errors(rs.drop_last());
        assert(rs.drop_last().push(rs.last()) =~= rs);
    } else {
        assert(m.len() == 0);
    }
}

/// Filing the written entries of a blob under their kinds gives the blob back.
pub proof fn lemma_group_blob_entries(b: BlobSpec)
    ensures
        decode::group_entries(encode::blob_entries(b)) == b,
{
    let mf = b.functions.map_values(|f: FunctionSpec| EntrySpec::Function(f));
    let mv = b.events.map_values(|v: EventSpec| EntrySpec::Event(v));
    let mr = b.errors.map_values(|r: ErrorSpec| EntrySpec::Error(r));
    lemma_group_append(mf + mv, mr);
    lemma_group_append(mf, mv);
    lemma_group_functions(b.functions);
    lemma_group_events(b.events);
    lemma_group_errors(b.errors);
    assert(decode::functions_of(encode::blob_entries(b)) =~= b.functions);
    assert(decode::events_of(encode::blob_entries(b)) =~= b.events);
    assert(decode::errors_of(encode::blob_entries(b)) =~= b.errors);
}

/// The written entries of a well-formed blob are well-formed, and there are as many as it holds.
pub proof fn lemma_blob_entries_wf(b: BlobSpec)
    requires
        wf_blob(b),
    ensures
        encode::blob_entries(b).len() == b.functions.len() + b.events.len() + b.errors.len(),
        forall|i: int| 0 <= i < encode::blob_entries(b).len() ==> wf_entry(#[trigger] encode::blob_entries(b)[i]),
{
    let mf = b.functions.map_values(|f: FunctionSpec| EntrySpec::Function(f));
    let mv = b.events.map_values(|v: EventSpec| EntrySpec::Event(v));
    let mr = b.errors.map_values(|r: ErrorSpec| EntrySpec::Error(r));
    let es = encode::blob_entries(b);
    assert(es == mf + mv + mr);
    let nf = mf.len() as int;
    let ne = mv.len() as int;
    assert forall|i: int| 0 <= i < es.len() implies wf_entry(#[trigger] es[i]) by {
        if i < nf {
            assert(es[i] == mf[i]);
            assert(wf_function(b.functions[i]));
        } else if i < nf + ne {
            assert(es[i] == mv[i - nf]);
            assert(wf_event(b.events[i - nf]));
        } else {
            assert(es[i] == mr[i - nf - ne]);
            assert(wf_error(b.errors[i - nf - ne]));
        }
    }
}

/// Decoding inverts encoding: every well-formed blob decodes back from its encoding.
pub proof fn law_decode_inverts_encode(b: BlobSpec)
    requires
        wf_blob(b),
    ensures
        decode::parse_blob(encode::enc_blob(b)) == Ok::<BlobSpec, DecodeError>(b),
{
    let es = encode::blob_entries(b);
    lemma_blob_entries_wf(b);
    let d = encode::enc_blob(b);
    let ee = encode::enc_entries(es);
    assert(d == seq![encode::byte_of(b.functions.len() + b.events.len() + b.errors.len())] + ee);
    assert(d[0] as nat == es.len());
    assert(d.skip(1) =~= ee + Seq::<u8>::empty());
    lemma_entries_roundtrip(es, Seq::<u8>::empty());
    lemma_group_blob_entries(b);
}

/// Encoding what was decoded from an encoding gives the same bytes again.
pub proof fn law_reencode_identical(b: BlobSpec)
    requires
        wf_blob(b),
    ensures
        decode::parse_blob(encode::enc_blob(b)) matches Ok(d) && encode::enc_blob(d) == encode::enc_blob(b),
{
    law_decode_inverts_encode(b);
}


/// A cut-short entry is rejected as a read past the end.
pub proof fn lemma_entry_prefix(e: EntrySpec, m: int)
    requires
        wf_entry(e),
        0 <= m < encode::enc_entry(e).len(),
    ensures
        decode::parse_entry(encode::enc_entry(e).take(m)) == Err::<(EntrySpec, nat), DecodeError>(
            DecodeError::UnexpectedEnd,
        ),
{
    let p = encode::entry_payload(e);
    let q = encode::enc_entry(e).take(m);
    if m >= 3 {
        let v = p.len() % 65536;
        assert(v == p.len());
        assert(q[1] as nat * 256 + q[2] as nat == p.len());
    }
}

/// Well-formed entries cut short are rejected as a read past the end.
pub proof fn lemma_entries_prefix(es: Seq<EntrySpec>, m: int)
    requires
        forall|i: int| 0 <= i < es.len() ==> wf_entry(#[trigger] es[i]),
        0 <= m < encode::enc_entries(es).len(),
    ensures
        decode::parse_entries(encode::enc_entries(es).take(m), es.len())
            == Err::<(Seq<EntrySpec>, nat), DecodeError>(DecodeError::UnexpectedEnd),
    decreases es.len(),
{
    if es.len() == 0 {
        assert(encode::enc_entries(es).len() == 0);
    } else {
        let init = es.drop_last();
        let last = es.last();
        let e_init = encode::enc_entries(init);
        let e_last = encode::enc_entry(last);
        let q = encode::enc_entries(es).take(m);
        assert(encode::enc_entries(es) == e_init + e_last);
        assert forall|i: int| 0 <= i < init.len() implies wf_entry(#[trigger] init[i]) by {
            assert(init[i] == es[i]);
        }
        assert(init.len() == (es.len() - 1) as nat);
        if m < e_init.len() {
            assert(q =~= e_init.take(m));
            lemma_entries_prefix(init, m);
        } else {
            let m2 = m - e_init.len();
            assert(q =~= e_init + e_last.take(m2));
            lemma_entries_roundtrip(init, e_last.take(m2));
            assert(q.skip(e_init.len() as int) =~= e_last.take(m2));
            assert(wf_entry(es[es.len() - 1]));
            lemma_entry_prefix(last, m2);
        }
    }
}

/// A truncated blob is rejected: every proper prefix of the encoding of a well-formed blob
/// fails to decode with "unexpected end of data", and yields no partial result.
pub proof fn law_truncated_blob_rejected(b: BlobSpec, n: int)
    requires
        wf_blob(b),
        0 <= n < encode::enc_blob(b).len(),
    ensures
        decode::parse_blob(encode::enc_blob(b).take(n)) == Err::<BlobSpec, DecodeError>(
            DecodeError::UnexpectedEnd,
        ),
{
    let es = encode::blob_entries(b);
    lemma_blob_entries_wf(b);
    let d = encode::enc_blob(b);
    let ee = encode::enc_entries(es);
    assert(d == seq![encode::byte_of(b.functions.len() + b.events.len() + b.errors.len())] + ee);
    if n > 0 {
        let q = d.take(n);
        assert(q[0] as nat == es.len());
        assert(q.skip(1) =~= ee.take(n - 1));
        lemma_entries_prefix(es, n - 1);
    }
}


/// A byte that no type starts with.
pub open spec fn is_type_tag(b: u8) -> bool {
    b == T_UINT256 || b == T_ADDRESS || b == T_BOOL || b == T_BYTES32 || b == T_STRING || b == T_BYTES
        || b == T_UINT8 || b == T_UINT16 || b == T_UINT32 || b == T_UINT64 || b == T_UINT128
        || b == T_BYTES_N || b == MOD_ARRAY || b == MOD_TUPLE
}

/// An unrecognized type tag is rejected with "unknown type tag".
pub proof fn law_unknown_type_tag_rejected(s: Seq<u8>)
    requires
        s.len() > 0,
        !is_type_tag(s[0]),
    ensures
        decode::parse_type(s) == Err::<(TypeSpec, nat), DecodeError>(DecodeError::UnknownTypeTag),
        decode::error_text(DecodeError::UnknownTypeTag) == "unknown type tag"@,
{
}

/// A complete entry of an unrecognized kind is rejected with "unknown entry type".
pub proof fn law_unknown_entry_kind_rejected(kind: u8, payload: Seq<u8>)
    requires
        kind != ENTRY_FUNCTION && kind != ENTRY_EVENT && kind != ENTRY_ERROR,
        payload.len() <= 65535,
    ensures
        decode::parse_entry(seq![kind] + encode::u16_be(payload.len()) + payload)
            == Err::<(EntrySpec, nat), DecodeError>(DecodeError::UnknownEntryType),
{
    let s = seq![kind] + encode::u16_be(payload.len()) + payload;
    let v = payload.len() % 65536;
    assert(v == payload.len());
    assert(s[1] as nat * 256 + s[2] as nat == payload.len());
}

/// An event's topic0 can be recomputed after decoding: the event decoded from a blob has
/// the same canonical signature as the one encoded, so the same Keccak-256 of it.
pub proof fn law_event_signature_survives(b: BlobSpec, i: int)
    requires
        wf_blob(b),
        0 <= i < b.events.len(),
    ensures
        decode::parse_blob(encode::enc_blob(b)) matches Ok(d) && i < d.events.len()
            && encode::spec_signature(d.events[i].name, encode::spec_param_types(d.events[i].params))
            == encode::spec_signature(b.events[i].name, encode::spec_param_types(b.events[i].params)),
{
    law_decode_inverts_encode(b);
}

/// Decoding writes the JSON back under the name it was encoded from: for a `.json` file
/// named without a directory, the decoded path of its encoded path is the file itself.
pub proof fn law_output_paths_round_trip(p: Seq<char>)
    requires
        text::spec_single_component(p),
        text::spec_extension_of_name(p) == Some("json"@),
    ensures
        decode::spec_decoded_path(encode::spec_encoded_path(p)) == p,
{
    reveal_strlit("json");
    reveal_strlit(".json");
    reveal_strlit(".abi.bin");
    reveal_strlit(".abi");
    reveal_strlit(".");
    reveal_strlit("..");
    text::lemma_rfind(p, '.');
    let r = text::spec_rfind(p, '.');
    let stem = p.take(r);
    assert(r > 0);
    assert(p[r] == '.');
    let ext = p.skip(r + 1);
    assert(ext == "json"@);
    assert(ext.len() == 4);
    assert(p.len() == r + 5);
    assert forall|i: int| 0 <= i < p.len() implies p[i] == (stem + ".json"@)[i] by {
        if i > r {
            assert(p[i] == ext[i - r - 1]);
            assert((stem + ".json"@)[i] == ".json"@[i - r]);
        }
    }
    assert(p =~= stem + ".json"@);
    assert(text::spec_file_name(p) == Some(p));
    assert(text::spec_file_stem(p) == Some(stem));
    assert(encode::spec_stem_or_empty(p) == stem);
    let q = stem + ".abi.bin"@;
    assert(q.len() == stem.len() + 8);
    assert(forall|j: int| 0 <= j < stem.len() ==> q[j] == #[trigger] p[j]);
    assert(!q.contains('/')) by {
        assert forall|j: int| 0 <= j < q.len() implies q[j] != '/' by {
            if j < stem.len() {
                assert(q[j] == p[j]);
                assert(p.contains(p[j]));
            }
        }
    }
    assert(!q.contains('\\')) by {
        assert forall|j: int| 0 <= j < q.len() implies q[j] != '\\' by {
            if j < stem.len() {
                assert(q[j] == p[j]);
                assert(p.contains(p[j]));
            }
        }
    }
    assert(!q.contains(':')) by {
        assert forall|j: int| 0 <= j < q.len() implies q[j] != ':' by {
            if j < stem.len() {
                assert(q[j] == p[j]);
                assert(p.contains(p[j]));
            }
        }
    }
    assert(q != "."@ && q != ".."@) by {
        assert(q.len() >= 8);
    }
    assert(text::spec_single_component(q));
    assert(encode::spec_encoded_path(p) == q);
    // The stem of `q` is `<stem>.abi`, whose JSON base is `stem`.
    text::lemma_rfind(q, '.');
    let rq = text::spec_rfind(q, '.');
    let k: int = stem.len() as int + 4;
    assert(q[k] == '.');
    if rq != k {
        if rq < k {
            assert(q[k] != '.');
        } else {
            assert(q[rq] == '.');
        }
    }
    assert(rq == k);
    let stem2 = q.take(k);
    assert(stem2 =~= stem + ".abi"@);
    assert(text::spec_file_name(q) == Some(q));
    assert(text::spec_file_stem(q) == Some(stem2));
    assert(stem2.skip(stem2.len() - 4) =~= ".abi"@);
    assert(stem2.take(stem2.len() - 4) =~= stem);
    assert(decode::spec_json_base(stem2) == stem);
    assert(stem + ".json"@ == p);
}

} // verus!
