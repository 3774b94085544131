use vstd::prelude::*;
use super::abi::{
    self, AbiType, AbiFunction, AbiEvent, AbiError, AbiBlob, EventParam, TypeSpec, FunctionSpec,
    ParamSpec, EventSpec, ErrorSpec, BlobSpec,
};
use crate::text;
use crate::codex::jsontext::{self, JsonRoot, JsonRootSpec};

verus! {

/// One parameter of a JSON ABI, as its fields read.
#[derive(Debug)]
pub struct RawParam {
    /// The `type` text, e.g. `uint256`, `tuple[]`.
    pub ty: String,
    /// The `indexed` flag (false where absent).
    pub indexed: bool,
    /// The `components` of a tuple (empty where absent).
    pub components: Vec<RawParam>,
    /// The `inner` type of an `array` (absent where absent).
    pub inner: Option<Box<RawParam>>,
}

/// One item of a JSON ABI, as its fields read.
#[derive(Debug)]
pub struct RawItem {
    /// The `type` of the item (`function` where absent).
    pub kind: String,
    /// The `name`, if any.
    pub name: Option<String>,
    /// The `inputs` (empty where absent).
    pub inputs: Vec<RawParam>,
    /// The `outputs` (empty where absent).
    pub outputs: Vec<RawParam>,
}

/// The item kind assumed where the JSON gives none.
pub fn default_type() -> (s: String)
    ensures
        s@ == "function"@,
{
    String::from_str("function")
}

/// An ASCII decimal digit.
pub open spec fn is_digit(c: char) -> bool {
    48 <= (c as u32) && (c as u32) <= 57
}

/// The value of a string of decimal digits.
pub open spec fn digits_value(d: Seq<char>) -> nat
    decreases d.len(),
{
    if d.len() == 0 {
        0
    } else {
        digits_value(d.drop_last()) * 10 + ((d.last() as u32) - 48) as nat
    }
}

/// `u8::from_str`: an optional `+`, then one or more decimal digits whose value is at most 255.
pub open spec fn spec_parse_u8(s: Seq<char>) -> Option<u8> {
    let d = spec_unsigned_digits(s);
    if d.len() > 0 && all_digits(d) && digits_value(d) <= 255 {
        Some(digits_value(d) as u8)
    } else {
        None
    }
}

/// What follows an optional leading `+`.
pub open spec fn spec_unsigned_digits(s: Seq<char>) -> Seq<char> {
    if s.len() > 0 && s[0] == '+' {
        s.drop_first()
    } else {
        s
    }
}

/// Every character of `d` is a decimal digit.
pub open spec fn all_digits(d: Seq<char>) -> bool {
    forall|i: int| 0 <= i < d.len() ==> is_digit(#[trigger] d[i])
}

/// `u8::from_str` on a string slice.
pub fn parse_u8(s: &str) -> (r: Option<u8>)
    ensures
        r == spec_parse_u8(s@),
{
    let n = s.unicode_len();
    let mut start: usize = 0;
    if n > 0 && s.get_char(0) == '+' {
        start = 1;
    }
    let ghost d = spec_unsigned_digits(s@);
    assert(d =~= s@.skip(start as int));
    if start >= n {
        return None;
    }
    let mut v: u32 = 0;
    let mut i: usize = start;
    while i < n
        invariant
            n == s@.len(),
            start <= i <= n,
            d == s@.skip(start as int),
            d == spec_unsigned_digits(s@),
            forall|j: int| 0 <= j < i - start ==> is_digit(#[trigger] d[j]),
            v == digits_value(d.take(i - start)),
            v <= 255,
        decreases n - i,
    {
        let c = s.get_char(i);
        assert(d[i - start] == c);
        if !(48 <= (c as u32) && (c as u32) <= 57) {
            assert(!is_digit(d[i - start]));
            assert(!all_digits(d));
            return None;
        }
        let ghost t = d.take(i - start + 1);
        assert(t.drop_last() =~= d.take(i - start));
        assert(t.last() == c);
        v = v * 10 + ((c as u32) - 48);
        i = i + 1;
        if v > 255 {
            proof {
                if all_digits(d) {
                    lemma_digits_value_grows(d, i - start);
                }
            }
            return None;
        }
    }
    assert(d.take(n - start) =~= d);
    Some(v as u8)
}

/// The value of a prefix of digits never exceeds the value of a longer prefix.
proof fn lemma_digits_value_grows(d: Seq<char>, k: int)
    requires
        0 <= k <= d.len(),
        all_digits(d),
    ensures
        digits_value(d.take(k)) <= digits_value(d),
    decreases d.len() - k,
{
    if k < d.len() {
        lemma_digits_value_grows(d, k + 1);
        let t = d.take(k + 1);
        assert(t.drop_last() =~= d.take(k));
        assert(is_digit(t.last()));
    } else {
        assert(d.take(k) =~= d);
    }
}

/// `s` begins with `p`.
pub open spec fn spec_starts_with(s: Seq<char>, p: Seq<char>) -> bool {
    p.len() <= s.len() && s.take(p.len() as int) == p
}

/// The type a JSON ABI parameter denotes.
pub open spec fn spec_parse_abi_type(p: RawParam) -> TypeSpec
    decreases p, 1nat, 0nat,
{
    spec_parse_text(p, p.ty@, true)
}

/// The types the parameters `ps` denote.
pub open spec fn spec_parse_list(ps: Seq<RawParam>) -> Seq<TypeSpec>
    decreases ps, 2nat, 0nat,
{
    if ps.len() == 0 {
        Seq::empty()
    } else {
        spec_parse_list(ps.drop_last()).push(spec_parse_abi_type(ps.last()))
    }
}

/// The type a `type` text denotes, with the components of `p`, and its `inner` where
/// `use_inner` holds. `T[]` and `T[N]` are arrays of `T`; integers of other widths count as
/// `uint256`; `bytesN` outside 1..=4 counts as `bytes32`; anything else unknown as `bytes`.
pub open spec fn spec_parse_text(p: RawParam, raw: Seq<char>, use_inner: bool) -> TypeSpec
    decreases p, 0nat, raw.len(),
{
    let ty = text::spec_trim(raw);
    let b = text::spec_rfind(ty, '[');
    if ty.len() > 0 && ty.last() == ']' && b >= 0 {
        proof {
            text::lemma_trim_len(raw);
            text::lemma_rfind(ty, '[');
        }
        TypeSpec::Array(Box::new(spec_parse_text(p, ty.take(b), false)))
    } else if ty == "address"@ {
        TypeSpec::Address
    } else if ty == "bool"@ {
        TypeSpec::Bool
    } else if ty == "string"@ {
        TypeSpec::AbiString
    } else if ty == "bytes"@ {
        TypeSpec::Bytes
    } else if ty == "tuple"@ {
        TypeSpec::Tuple(spec_parse_list(p.components@))
    } else if ty == "array"@ {
        if use_inner && p.inner is Some {
            TypeSpec::Array(Box::new(spec_parse_abi_type(*p.inner->Some_0)))
        } else {
            TypeSpec::Bytes
        }
    } else if ty == "uint8"@ || ty == "int8"@ {
        TypeSpec::Uint8
    } else if ty == "uint16"@ || ty == "int16"@ {
        TypeSpec::Uint16
    } else if ty == "uint32"@ || ty == "int32"@ {
        TypeSpec::Uint32
    } else if ty == "uint64"@ || ty == "int64"@ {
        TypeSpec::Uint64
    } else if ty == "uint128"@ || ty == "int128"@ {
        TypeSpec::Uint128
    } else if ty == "uint256"@ {
        TypeSpec::Uint256
    } else if ty == "bytes1"@ {
        TypeSpec::BytesN(1)
    } else if ty == "bytes2"@ {
        TypeSpec::BytesN(2)
    } else if ty == "bytes3"@ {
        TypeSpec::BytesN(3)
    } else if ty == "bytes4"@ {
        TypeSpec::BytesN(4)
    } else if spec_starts_with(ty, "uint"@) || spec_starts_with(ty, "int"@) {
        TypeSpec::Uint256
    } else if spec_starts_with(ty, "bytes"@) && ty.len() > 5 {
        match spec_parse_u8(ty.skip(5)) {
            Some(n) => if n == 32 {
                TypeSpec::Bytes32
            } else if 1 <= n && n <= 4 {
                TypeSpec::BytesN(n)
            } else {
                TypeSpec::Bytes32
            },
            None => TypeSpec::Bytes32,
        }
    } else {
        TypeSpec::Bytes
    }
}


/// Every `bytesN` in `t` has its size in 1..=4, the sizes the binary format names.
pub open spec fn spec_bytes_n_valid(t: TypeSpec) -> bool
    decreases t,
{
    match t {
        TypeSpec::BytesN(n) => 1 <= n && n <= 4,
        TypeSpec::Array(inner) => spec_bytes_n_valid(*inner),
        TypeSpec::Tuple(fields) => spec_bytes_n_valid_list(fields),
        _ => true,
    }
}

/// Every `bytesN` in the types `ts` has its size in 1..=4.
pub open spec fn spec_bytes_n_valid_list(ts: Seq<TypeSpec>) -> bool
    decreases ts,
{
    ts.len() == 0 || (spec_bytes_n_valid_list(ts.drop_last()) && spec_bytes_n_valid(ts.last()))
}

proof fn lemma_parse_text_bytes_n(p: RawParam, raw: Seq<char>, use_inner: bool)
    ensures
        spec_bytes_n_valid(spec_parse_text(p, raw, use_inner)),
    decreases p, 0nat, raw.len(),
{
    let ty = text::spec_trim(raw);
    let b = text::spec_rfind(ty, '[');
    if ty.len() > 0 && ty.last() == ']' && b >= 0 {
        text::lemma_trim_len(raw);
        text::lemma_rfind(ty, '[');
        lemma_parse_text_bytes_n(p, ty.take(b), false);
    } else if ty == "tuple"@ {
        lemma_parse_list_bytes_n(p.components@);
    } else if ty == "array"@ {
        if use_inner && p.inner is Some {
            lemma_parse_abi_type_bytes_n(*p.inner->Some_0);
        }
    }
}

proof fn lemma_parse_abi_type_bytes_n(p: RawParam)
    ensures
        spec_bytes_n_valid(spec_parse_abi_type(p)),
    decreases p, 1nat, 0nat,
{
    lemma_parse_text_bytes_n(p, p.ty@, true);
}

proof fn lemma_parse_list_bytes_n(ps: Seq<RawParam>)
    ensures
        spec_bytes_n_valid_list(spec_parse_list(ps)),
    decreases ps, 2nat, 0nat,
{
    if ps.len() > 0 {
        lemma_parse_list_bytes_n(ps.drop_last());
        lemma_parse_abi_type_bytes_n(ps.last());
        let l = spec_parse_list(ps);
        assert(l.drop_last() =~= spec_parse_list(ps.drop_last()));
    }
}

/// Every `bytesN` that reading a JSON ABI parameter yields, at any depth, has its size in
/// 1..=4: other sizes are read as `bytes32`.
pub proof fn law_parsed_bytes_n_in_range(p: RawParam)
    ensures
        spec_bytes_n_valid(spec_parse_abi_type(p)),
{
    lemma_parse_abi_type_bytes_n(p);
}

/// The type a JSON ABI parameter denotes.
pub fn parse_abi_type(param: &RawParam) -> (t: AbiType)
    ensures
        t@ == spec_parse_abi_type(*param),
    decreases param, 1nat, 0nat,
{
    parse_text(param, param.ty.as_str(), true)
}

/// The types the parameters `ps` denote, in order.
fn parse_list(ps: &Vec<RawParam>) -> (v: Vec<AbiType>)
    ensures
        abi::types_view(v@) == spec_parse_list(ps@),
    decreases ps, 2nat, 0nat,
{
    let mut v: Vec<AbiType> = Vec::new();
    let mut i: usize = 0;
    assert(ps@.take(0) =~= Seq::<RawParam>::empty());
    while i < ps.len()
        invariant
            i <= ps@.len(),
            abi::types_view(v@) == spec_parse_list(ps@.take(i as int)),
        decreases ps@.len() - i,
    {
        proof {
            assert(decreases_to!(ps => ps@[i as int]));
        }
        let t = parse_abi_type(&ps[i]);
        let ghost prev = v@;
        v.push(t);
        proof {
            assert(v@.drop_last() =~= prev);
            let tk = ps@.take(i + 1);
            assert(tk.drop_last() =~= ps@.take(i as int));
            assert(tk.last() == ps@[i as int]);
        }
        i = i + 1;
    }
    assert(ps@.take(ps@.len() as int) =~= ps@);
    v
}

/// The type a `type` text denotes, with the components of `param`, and its `inner` where
/// `use_inner` holds.
fn parse_text(param: &RawParam, raw: &str, use_inner: bool) -> (t: AbiType)
    ensures
        t@ == spec_parse_text(*param, raw@, use_inner),
    decreases param, 0nat, raw@.len(),
{
    let ty = text::trim(raw);
    if text::ends_with_char(ty, ']') {
        match text::rfind(ty, '[') {
            Some(b) => {
                proof {
                    text::lemma_trim_len(raw@);
                    text::lemma_rfind(ty@, '[');
                }
                let base = ty.substring_char(0, b);
                let inner = parse_text(param, base, false);
                return AbiType::Array(Box::new(inner));
            },
            None => {},
        }
    }
    if text::str_eq(ty, "address") {
        AbiType::Address
    } else if text::str_eq(ty, "bool") {
        AbiType::Bool
    } else if text::str_eq(ty, "string") {
        AbiType::AbiString
    } else if text::str_eq(ty, "bytes") {
        AbiType::Bytes
    } else if text::str_eq(ty, "tuple") {
        AbiType::Tuple(parse_list(&param.components))
    } else if text::str_eq(ty, "array") {
        if use_inner {
            match &param.inner {
                Some(b) => AbiType::Array(Box::new(parse_abi_type(b))),
                None => AbiType::Bytes,
            }
        } else {
            AbiType::Bytes
        }
    } else if text::str_eq(ty, "uint8") || text::str_eq(ty, "int8") {
        AbiType::Uint8
    } else if text::str_eq(ty, "uint16") || text::str_eq(ty, "int16") {
        AbiType::Uint16
    } else if text::str_eq(ty, "uint32") || text::str_eq(ty, "int32") {
        AbiType::Uint32
    } else if text::str_eq(ty, "uint64") || text::str_eq(ty, "int64") {
        AbiType::Uint64
    } else if text::str_eq(ty, "uint128") || text::str_eq(ty, "int128") {
        AbiType::Uint128
    } else if text::str_eq(ty, "uint256") {
        AbiType::Uint256
    } else if text::str_eq(ty, "bytes1") {
        AbiType::BytesN(1)
    } else if text::str_eq(ty, "bytes2") {
        AbiType::BytesN(2)
    } else if text::str_eq(ty, "bytes3") {
        AbiType::BytesN(3)
    } else if text::str_eq(ty, "bytes4") {
        AbiType::BytesN(4)
    } else if text::starts_with(ty, "uint") || text::starts_with(ty, "int") {
        AbiType::Uint256
    } else if text::starts_with(ty, "bytes") && ty.unicode_len() > 5 {
        let n = ty.unicode_len();
        let digits = ty.substring_char(5, n);
        match parse_u8(digits) {
            Some(w) => if w == 32 {
                AbiType::Bytes32
            } else if 1 <= w && w <= 4 {
                AbiType::BytesN(w)
            } else {
                AbiType::Bytes32
            },
            None => AbiType::Bytes32,
        }
    } else {
        AbiType::Bytes
    }
}


/// The name bytes an item contributes: its UTF-8 name, unless absent or empty.
pub open spec fn spec_item_name(item: RawItem) -> Option<Seq<u8>> {
    match item.name {
        Some(n) => if n@.len() > 0 {
            Some(vstd::utf8::encode_utf8(n@))
        } else {
            None
        },
        None => None,
    }
}

/// The event parameters that `ps` denote.
pub open spec fn spec_event_params(ps: Seq<RawParam>) -> Seq<ParamSpec> {
    Seq::new(ps.len(), |i: int| ParamSpec { ty: spec_parse_abi_type(ps[i]), indexed: ps[i].indexed })
}

/// `b` with the entry that `item` denotes added: a named `function`, `event` or `error`;
/// items without a name, or of any other kind, add nothing.
pub open spec fn spec_add_item(b: BlobSpec, item: RawItem) -> BlobSpec {
    match spec_item_name(item) {
        None => b,
        Some(name) => if item.kind@ == "function"@ {
            BlobSpec {
                functions: b.functions.push(
                    FunctionSpec {
                        name,
                        inputs: spec_parse_list(item.inputs@),
                        outputs: spec_parse_list(item.outputs@),
                    },
                ),
                events: b.events,
                errors: b.errors,
            }
        } else if item.kind@ == "event"@ {
            BlobSpec {
                functions: b.functions,
                events: b.events.push(EventSpec { name, params: spec_event_params(item.inputs@) }),
                errors: b.errors,
            }
        } else if item.kind@ == "error"@ {
            BlobSpec {
                functions: b.functions,
                events: b.events,
                errors: b.errors.push(ErrorSpec { name, params: spec_parse_list(item.inputs@) }),
            }
        } else {
            b
        },
    }
}

/// The blob that the ABI items denote, in their order.
pub open spec fn spec_items_blob(items: Seq<RawItem>) -> BlobSpec
    decreases items.len(),
{
    if items.len() == 0 {
        BlobSpec { functions: Seq::empty(), events: Seq::empty(), errors: Seq::empty() }
    } else {
        spec_add_item(spec_items_blob(items.drop_last()), items.last())
    }
}

fn event_params(ps: &Vec<RawParam>) -> (v: Vec<EventParam>)
    ensures
        v@.map_values(|p: EventParam| p@) == spec_event_params(ps@),
{
    let ghost target = spec_event_params(ps@);
    let mut v: Vec<EventParam> = Vec::new();
    let mut i: usize = 0;
    while i < ps.len()
        invariant
            i <= ps@.len(),
            target == spec_event_params(ps@),
            v@.len() == i,
            v@.map_values(|p: EventParam| p@) == target.take(i as int),
        decreases ps@.len() - i,
    {
        let ty = parse_abi_type(&ps[i]);
        let ghost prev = v@;
        v.push(EventParam { ty, indexed: ps[i].indexed });
        assert(target.len() == ps@.len());
        assert(target[i as int] == ParamSpec { ty: spec_parse_abi_type(ps@[i as int]), indexed: ps@[i as int].indexed });
        assert(v@[i as int]@ == target[i as int]);
        assert(v@.map_values(|p: EventParam| p@) =~= prev.map_values(|p: EventParam| p@).push(
            target[i as int],
        ));
        assert(target.take(i + 1) =~= target.take(i as int).push(target[i as int]));
        i = i + 1;
    }
    assert(target.take(ps@.len() as int) =~= target);
    v
}

/// The blob of functions, events and errors that JSON ABI items denote, in their order.
/// Items without a name, or of another kind than function, event or error, are skipped.
pub fn parse_abi_items(items: &Vec<RawItem>) -> (b: AbiBlob)
    ensures
        b@ == spec_items_blob(items@),
{
    let mut blob = AbiBlob { functions: Vec::new(), events: Vec::new(), errors: Vec::new() };
    let mut i: usize = 0;
    assert(blob@ =~= spec_items_blob(items@.take(0)));
    while i < items.len()
        invariant
            i <= items@.len(),
            blob@ == spec_items_blob(items@.take(i as int)),
        decreases items@.len() - i,
    {
        let item = &items[i];
        let ghost prev = blob@;
        proof {
            let t = items@.take(i + 1);
            assert(t.drop_last() =~= items@.take(i as int));
            assert(t.last() == *item);
        }
        let name: Option<Vec<u8>> = match &item.name {
            Some(n) => if n.as_str().is_empty() {
                None
            } else {
                Some(vstd::slice::slice_to_vec(n.as_str().as_bytes()))
            },
            None => None,
        };
        match name {
            Some(name) => {
                if text::str_eq(item.kind.as_str(), "function") {
                    let inputs = parse_list(&item.inputs);
                    let outputs = parse_list(&item.outputs);
                    blob.functions.push(AbiFunction { name, inputs, outputs });
                    assert(blob@.functions =~= prev.functions.push(blob.functions@.last()@));
                } else if text::str_eq(item.kind.as_str(), "event") {
                    let params = event_params(&item.inputs);
                    blob.events.push(AbiEvent { name, params });
                    assert(blob@.events =~= prev.events.push(blob.events@.last()@));
                } else if text::str_eq(item.kind.as_str(), "error") {
                    let params = parse_list(&item.inputs);
                    blob.errors.push(AbiError { name, params });
                    assert(blob@.errors =~= prev.errors.push(blob.errors@.last()@));
                }
            },
            None => {},
        }
        assert(blob@ =~= spec_add_item(prev, *item));
        i = i + 1;
    }
    assert(items@.take(items@.len() as int) =~= items@);
    blob
}

} // verus!

verus! {

/// Where the ABI items of a JSON document are: the document itself, or its `abi` field.
#[derive(Debug, PartialEq, Eq)]
pub enum AbiSource {
    /// The document is the array of items.
    Root,
    /// The document is an artifact object whose `abi` field holds the items.
    AbiField,
}

/// Where the items of a JSON ABI document are: a bare array, or an object with an `abi`
/// field; a document that does not parse, an object without `abi` and any other root are
/// refused with their messages.
pub open spec fn spec_abi_source(json: Seq<char>) -> Result<AbiSource, Seq<char>> {
    match jsontext::spec_json_root(json) {
        Err(e) => Err("JSON parse error: "@ + e),
        Ok(JsonRootSpec::Array) => Ok(AbiSource::Root),
        Ok(JsonRootSpec::Object(keys)) => if keys.contains("abi"@) {
            Ok(AbiSource::AbiField)
        } else {
            Err("JSON object has no \"abi\" field"@)
        },
        Ok(JsonRootSpec::Scalar) => Err("expected a JSON array or an object with an \"abi\" field"@),
    }
}

/// Where the items of the JSON ABI document `json` are, or why it is refused.
pub fn abi_source(json: &str) -> (r: Result<AbiSource, String>)
    ensures
        match (r, spec_abi_source(json@)) {
            (Ok(a), Ok(b)) => a == b,
            (Err(m), Err(e)) => m@ == e,
            _ => false,
        },
{
    match jsontext::json_root(json) {
        Err(e) => {
            let mut m = String::from_str("JSON parse error: ");
            m.append(e.as_str());
            Err(m)
        },
        Ok(JsonRoot::Array) => Ok(AbiSource::Root),
        Ok(JsonRoot::Object(keys)) => {
            let ghost ks = keys@.map_values(|k: String| k@);
            assert(jsontext::spec_json_root(json@) == Ok::<JsonRootSpec, Seq<char>>(JsonRootSpec::Object(ks)));
            let mut i: usize = 0;
            while i < keys.len()
                invariant
                    i <= keys@.len(),
                    ks == keys@.map_values(|k: String| k@),
                    jsontext::spec_json_root(json@) == Ok::<JsonRootSpec, Seq<char>>(JsonRootSpec::Object(ks)),
                    forall|j: int| 0 <= j < i ==> ks[j] != "abi"@,
                decreases keys.len() - i,
            {
                if text::str_eq(keys[i].as_str(), "abi") {
                    assert(ks[i as int] == "abi"@);
                    assert(ks.contains("abi"@));
                    return Ok(AbiSource::AbiField);
                }
                i = i + 1;
            }
            assert(!ks.contains("abi"@));
            Err(String::from_str("JSON object has no \"abi\" field"))
        },
        Ok(JsonRoot::Scalar) => Err(String::from_str("expected a JSON array or an object with an \"abi\" field")),
    }
}

/// The blob of JSON ABI items, given as read from the document (or the message of the error
/// in reading them); an error is reported as `ABI parse error: <message>`.
pub fn abi_blob_from_items(items: Result<Vec<RawItem>, String>) -> (r: Result<AbiBlob, String>)
    ensures
        match items {
            Ok(v) => r matches Ok(b) && b@ == spec_items_blob(v@),
            Err(e) => r matches Err(m) && m@ == "ABI parse error: "@ + e@,
        },
{
    match items {
        Ok(v) => Ok(parse_abi_items(&v)),
        Err(e) => {
            let mut m = String::from_str("ABI parse error: ");
            m.append(e.as_str());
            Err(m)
        },
    }
}

} // verus!
