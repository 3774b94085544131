use vstd::prelude::*;
use super::abi::{self, AbiType, AbiFunction, AbiEvent, AbiError, AbiBlob, EventParam, TypeSpec,
    FunctionSpec, ParamSpec, EventSpec, ErrorSpec, BlobSpec};
use crate::text;

verus! {

/// The JSON object of one type: `{"type":"uint256"}`, `{"type":"array","inner":...}`,
/// `{"type":"tuple","components":[...]}`.
pub open spec fn spec_type_json(t: TypeSpec) -> Seq<char>
    decreases t,
{
    match t {
        TypeSpec::Uint256 => "{\"type\":\"uint256\"}"@,
        TypeSpec::Uint8 => "{\"type\":\"uint8\"}"@,
        TypeSpec::Uint16 => "{\"type\":\"uint16\"}"@,
        TypeSpec::Uint32 => "{\"type\":\"uint32\"}"@,
        TypeSpec::Uint64 => "{\"type\":\"uint64\"}"@,
        TypeSpec::Uint128 => "{\"type\":\"uint128\"}"@,
        TypeSpec::Address => "{\"type\":\"address\"}"@,
        TypeSpec::Bool => "{\"type\":\"bool\"}"@,
        TypeSpec::Bytes32 => "{\"type\":\"bytes32\"}"@,
        TypeSpec::BytesN(n) => "{\"type\":\"bytes"@ + abi::spec_decimal(n) + "\"}"@,
        TypeSpec::AbiString => "{\"type\":\"string\"}"@,
        TypeSpec::Bytes => "{\"type\":\"bytes\"}"@,
        TypeSpec::Array(inner) => "{\"type\":\"array\",\"inner\":"@ + spec_type_json(*inner) + "}"@,
        TypeSpec::Tuple(fields) => "{\"type\":\"tuple\",\"components\":["@ + spec_types_json(fields)
            + "]}"@,
    }
}

/// The JSON objects of `ts`, joined by commas.
pub open spec fn spec_types_json(ts: Seq<TypeSpec>) -> Seq<char>
    decreases ts,
{
    if ts.len() == 0 {
        Seq::empty()
    } else if ts.len() == 1 {
        spec_type_json(ts[0])
    } else {
        spec_types_json(ts.drop_last()) + ","@ + spec_type_json(ts.last())
    }
}

/// Texts joined by commas.
pub open spec fn spec_join(parts: Seq<Seq<char>>) -> Seq<char>
    decreases parts.len(),
{
    if parts.len() == 0 {
        Seq::empty()
    } else if parts.len() == 1 {
        parts[0]
    } else {
        spec_join(parts.drop_last()) + ","@ + parts.last()
    }
}

/// Joining one more part appends a comma (unless it is the first) and the part.
pub proof fn lemma_join_step(parts: Seq<Seq<char>>, i: int)
    requires
        0 <= i < parts.len(),
    ensures
        spec_join(parts.take(i + 1)) == if i == 0 {
            parts[0]
        } else {
            spec_join(parts.take(i)) + ","@ + parts[i]
        },
{
    let t1 = parts.take(i + 1);
    assert(t1.drop_last() =~= parts.take(i));
    assert(t1.last() == parts[i]);
    if i == 0 {
        assert(t1.len() == 1);
    }
}

/// The JSON of a function entry.
pub open spec fn spec_function_json(f: FunctionSpec) -> Seq<char> {
    "{\"kind\":\"function\",\"name\":\""@ + text::spec_utf8_lossy(f.name) + "\",\"inputs\":["@
        + spec_types_json(f.inputs) + "],\"outputs\":["@ + spec_types_json(f.outputs) + "]}"@
}

/// The JSON of an event parameter.
pub open spec fn spec_param_json(p: ParamSpec) -> Seq<char> {
    "{\"indexed\":"@ + (if p.indexed { "true"@ } else { "false"@ }) + ",\"type\":"@
        + spec_type_json(p.ty) + "}"@
}

/// The JSON of an event entry.
pub open spec fn spec_event_json(e: EventSpec) -> Seq<char> {
    "{\"kind\":\"event\",\"name\":\""@ + text::spec_utf8_lossy(e.name) + "\",\"params\":["@
        + spec_join(e.params.map_values(|p: ParamSpec| spec_param_json(p))) + "]}"@
}

/// The JSON of an error entry.
pub open spec fn spec_error_json(e: ErrorSpec) -> Seq<char> {
    "{\"kind\":\"error\",\"name\":\""@ + text::spec_utf8_lossy(e.name) + "\",\"params\":["@
        + spec_types_json(e.params) + "]}"@
}

/// The JSON objects of a blob's entries: functions, then events, then errors.
pub open spec fn spec_blob_parts(b: BlobSpec) -> Seq<Seq<char>> {
    b.functions.map_values(|f: FunctionSpec| spec_function_json(f))
        + b.events.map_values(|e: EventSpec| spec_event_json(e))
        + b.errors.map_values(|e: ErrorSpec| spec_error_json(e))
}

/// The JSON array of a blob's entries.
pub open spec fn spec_blob_json(b: BlobSpec) -> Seq<char> {
    "["@ + spec_join(spec_blob_parts(b)) + "]"@
}

/// The JSON object of one type.
fn type_to_json(ty: &AbiType) -> (s: String)
    ensures
        s@ == spec_type_json(ty@),
    decreases ty,
{
    match ty {
        AbiType::Uint256 => String::from_str("{\"type\":\"uint256\"}"),
        AbiType::Uint8 => String::from_str("{\"type\":\"uint8\"}"),
        AbiType::Uint16 => String::from_str("{\"type\":\"uint16\"}"),
        AbiType::Uint32 => String::from_str("{\"type\":\"uint32\"}"),
        AbiType::Uint64 => String::from_str("{\"type\":\"uint64\"}"),
        AbiType::Uint128 => String::from_str("{\"type\":\"uint128\"}"),
        AbiType::Address => String::from_str("{\"type\":\"address\"}"),
        AbiType::Bool => String::from_str("{\"type\":\"bool\"}"),
        AbiType::Bytes32 => String::from_str("{\"type\":\"bytes32\"}"),
        AbiType::BytesN(n) => {
            let mut s = String::from_str("{\"type\":\"bytes");
            abi::push_decimal(&mut s, *n);
            s.append("\"}");
            s
        },
        AbiType::AbiString => String::from_str("{\"type\":\"string\"}"),
        AbiType::Bytes => String::from_str("{\"type\":\"bytes\"}"),
        AbiType::Array(inner) => {
            let mut s = String::from_str("{\"type\":\"array\",\"inner\":");
            let i = type_to_json(inner);
            s.append(i.as_str());
            s.append("}");
            s
        },
        AbiType::Tuple(fields) => {
            let mut s = String::from_str("{\"type\":\"tuple\",\"components\":[");
            let c = types_to_json(fields);
            s.append(c.as_str());
            s.append("]}");
            s
        },
    }
}

/// The JSON objects of `ts`, joined by commas.
fn types_to_json(ts: &Vec<AbiType>) -> (s: String)
    ensures
        s@ == spec_types_json(abi::types_view(ts@)),
    decreases ts,
{
    proof {
        abi::lemma_types_view(ts@);
    }
    let ghost tv = abi::types_view(ts@);
    let mut s = String::new();
    let mut i: usize = 0;
    while i < ts.len()
        invariant
            i <= ts.len(),
            tv == abi::types_view(ts@),
            tv.len() == ts@.len(),
            forall|j: int| 0 <= j < ts@.len() ==> #[trigger] tv[j] == ts@[j]@,
            s@ == spec_types_json(tv.take(i as int)),
        decreases ts.len() - i,
    {
        if i > 0 {
            s.append(",");
        }
        proof {
            assert(decreases_to!(ts => ts@[i as int]));
        }
        let c = type_to_json(&ts[i]);
        s.append(c.as_str());
        proof {
            let t1 = tv.take(i as int + 1);
            assert(t1.drop_last() =~= tv.take(i as int));
            assert(t1.last() == tv[i as int]);
            if i == 0 {
                assert(t1.len() == 1);
                assert(t1[0] == tv[0]);
            }
        }
        i = i + 1;
    }
    proof {
        assert(tv.take(ts.len() as int) =~= tv);
    }
    s
}

fn function_json(f: &AbiFunction) -> (s: String)
    ensures
        s@ == spec_function_json(f@),
{
    let name = text::utf8_lossy(f.name.as_slice());
    let mut s = String::from_str("{\"kind\":\"function\",\"name\":\"");
    s.append(name.as_str());
    s.append("\",\"inputs\":[");
    let ins = types_to_json(&f.inputs);
    s.append(ins.as_str());
    s.append("],\"outputs\":[");
    let outs = types_to_json(&f.outputs);
    s.append(outs.as_str());
    s.append("]}");
    s
}

fn param_json(p: &EventParam) -> (s: String)
    ensures
        s@ == spec_param_json(p@),
{
    let mut s = String::from_str("{\"indexed\":");
    if p.indexed {
        s.append("true");
    } else {
        s.append("false");
    }
    s.append(",\"type\":");
    let t = type_to_json(&p.ty);
    s.append(t.as_str());
    s.append("}");
    s
}

fn event_json(e: &AbiEvent) -> (s: String)
    ensures
        s@ == spec_event_json(e@),
{
    let name = text::utf8_lossy(e.name.as_slice());
    let mut s = String::from_str("{\"kind\":\"event\",\"name\":\"");
    s.append(name.as_str());
    s.append("\",\"params\":[");
    let ghost parts = e@.params.map_values(|p: ParamSpec| spec_param_json(p));
    let ghost start = s@;
    let mut i: usize = 0;
    while i < e.params.len()
        invariant
            i <= e.params.len(),
            parts == e@.params.map_values(|p: ParamSpec| spec_param_json(p)),
            parts.len() == e.params@.len(),
            s@ == start + spec_join(parts.take(i as int)),
        decreases e.params.len() - i,
    {
        if i > 0 {
            s.append(",");
        }
        let p = param_json(&e.params[i]);
        s.append(p.as_str());
        proof {
            lemma_join_step(parts, i as int);
        }
        i = i + 1;
    }
    assert(parts.take(e.params.len() as int) =~= parts);
    s.append("]}");
    s
}

fn error_json(e: &AbiError) -> (s: String)
    ensures
        s@ == spec_error_json(e@),
{
    let name = text::utf8_lossy(e.name.as_slice());
    let mut s = String::from_str("{\"kind\":\"error\",\"name\":\"");
    s.append(name.as_str());
    s.append("\",\"params\":[");
    let ps = types_to_json(&e.params);
    s.append(ps.as_str());
    s.append("]}");
    s
}

/// The JSON array describing every entry of a blob: functions, then events, then errors.
#[verifier::rlimit(40)]
pub fn blob_to_json(blob: &AbiBlob) -> (s: String)
    ensures
        s@ == spec_blob_json(blob@),
{
    let ghost parts = spec_blob_parts(blob@);
    let nf = blob.functions.len();
    let ne = blob.events.len();
    let nr = blob.errors.len();
    let mut s = String::from_str("[");
    let ghost start = s@;
    assert(parts.len() == nf + ne + nr);
    let mut i: usize = 0;
    while i < nf
        invariant
            i <= nf,
            nf == blob.functions@.len(),
            parts == spec_blob_parts(blob@),
            parts.len() == nf + ne + nr,
            s@ == start + spec_join(parts.take(i as int)),
        decreases nf - i,
    {
        if i > 0 {
            s.append(",");
        }
        let p = function_json(&blob.functions[i]);
        s.append(p.as_str());
        proof {
            assert(parts[i as int] == spec_function_json(blob@.functions[i as int]));
            lemma_join_step(parts, i as int);
        }
        i = i + 1;
    }
    let mut j: usize = 0;
    while j < ne
        invariant
            j <= ne,
            nf == blob.functions@.len(),
            ne == blob.events@.len(),
            parts == spec_blob_parts(blob@),
            parts.len() == nf + ne + nr,
            s@ == start + spec_join(parts.take(nf + j)),
        decreases ne - j,
    {
        if nf > 0 || j > 0 {
            s.append(",");
        }
        let p = event_json(&blob.events[j]);
        s.append(p.as_str());
        proof {
            assert(parts[nf + j] == spec_event_json(blob@.events[j as int]));
            lemma_join_step(parts, nf + j);
        }
        j = j + 1;
    }
    let mut k: usize = 0;
    while k < nr
        invariant
            k <= nr,
            nf == blob.functions@.len(),
            ne == blob.events@.len(),
            nr == blob.errors@.len(),
            parts == spec_blob_parts(blob@),
            parts.len() == nf + ne + nr,
            s@ == start + spec_join(parts.take(nf + ne + k)),
        decreases nr - k,
    {
        if nf > 0 || ne > 0 || k > 0 {
            s.append(",");
        }
        let p = error_json(&blob.errors[k]);
        s.append(p.as_str());
        proof {
            assert(parts[nf + ne + k] == spec_error_json(blob@.errors[k as int]));
            lemma_join_step(parts, nf + ne + k);
        }
        k = k + 1;
    }
    assert(parts.take(nf + ne + nr) =~= parts);
    s.append("]");
    s
}


/// The JSON of every blob is an array: it starts with `[` and ends with `]`.
pub proof fn law_blob_json_bracketed(b: BlobSpec)
    ensures
        spec_blob_json(b).len() >= 2,
        spec_blob_json(b)[0] == '[',
        spec_blob_json(b).last() == ']',
{
    reveal_strlit("[");
    reveal_strlit("]");
    let j = spec_blob_json(b);
    let mid = spec_join(spec_blob_parts(b));
    assert(j == "["@ + mid + "]"@);
    assert(j[0] == "["@[0]);
    assert(j.last() == "]"@[0]);
}

} // verus!
