use vstd::prelude::*;
use super::abi::{
    self, AbiType, AbiFunction, AbiEvent, AbiError, AbiBlob, EventParam, TypeSpec, FunctionSpec,
    ParamSpec, EventSpec, ErrorSpec, BlobSpec, T_UINT256, T_ADDRESS, T_BOOL, T_BYTES32, T_STRING,
    T_BYTES, T_UINT8, T_UINT16, T_UINT32, T_UINT64, T_UINT128, T_BYTES_N, MOD_ARRAY, MOD_TUPLE,
    ENTRY_FUNCTION, ENTRY_EVENT, ENTRY_ERROR,
};
use super::encode::{self, EntrySpec};
use crate::text;

verus! {

/// Why decoding stops.
pub enum DecodeError {
    /// A read went past the end of the data.
    UnexpectedEnd,
    /// A type tag that no type has.
    UnknownTypeTag,
    /// An entry kind other than function, event or error.
    UnknownEntryType,
}

/// The message the decoder reports for an error.
pub open spec fn error_text(e: DecodeError) -> Seq<char> {
    match e {
        DecodeError::UnexpectedEnd => "unexpected end of data"@,
        DecodeError::UnknownTypeTag => "unknown type tag"@,
        DecodeError::UnknownEntryType => "unknown entry type"@,
    }
}

/// Decodes one type from the front of `s`: the type and the number of bytes it took.
pub open spec fn parse_type(s: Seq<u8>) -> Result<(TypeSpec, nat), DecodeError>
    decreases s.len(), 0nat,
{
    if s.len() == 0 {
        Err(DecodeError::UnexpectedEnd)
    } else if s[0] == T_UINT256 {
        Ok((TypeSpec::Uint256, 1))
    } else if s[0] == T_UINT8 {
        Ok((TypeSpec::Uint8, 1))
    } else if s[0] == T_UINT16 {
        Ok((TypeSpec::Uint16, 1))
    } else if s[0] == T_UINT32 {
        Ok((TypeSpec::Uint32, 1))
    } else if s[0] == T_UINT64 {
        Ok((TypeSpec::Uint64, 1))
    } else if s[0] == T_UINT128 {
        Ok((TypeSpec::Uint128, 1))
    } else if s[0] == T_ADDRESS {
        Ok((TypeSpec::Address, 1))
    } else if s[0] == T_BOOL {
        Ok((TypeSpec::Bool, 1))
    } else if s[0] == T_BYTES32 {
        Ok((TypeSpec::Bytes32, 1))
    } else if s[0] == T_BYTES_N {
        if s.len() < 2 {
            Err(DecodeError::UnexpectedEnd)
        } else {
            Ok((TypeSpec::BytesN(s[1]), 2))
        }
    } else if s[0] == T_STRING {
        Ok((TypeSpec::AbiString, 1))
    } else if s[0] == T_BYTES {
        Ok((TypeSpec::Bytes, 1))
    } else if s[0] == MOD_ARRAY {
        match parse_type(s.skip(1)) {
            Ok((t, k)) => Ok((TypeSpec::Array(Box::new(t)), k + 1)),
            Err(e) => Err(e),
        }
    } else if s[0] == MOD_TUPLE {
        if s.len() < 2 {
            Err(DecodeError::UnexpectedEnd)
        } else {
            match parse_types(s.skip(2), s[1] as nat) {
                Ok((ts, k)) => Ok((TypeSpec::Tuple(ts), k + 2)),
                Err(e) => Err(e),
            }
        }
    } else {
        Err(DecodeError::UnknownTypeTag)
    }
}

/// Decodes `n` types, one after the other, from the front of `s`.
pub open spec fn parse_types(s: Seq<u8>, n: nat) -> Result<(Seq<TypeSpec>, nat), DecodeError>
    decreases s.len(), n,
{
    if n == 0 {
        Ok((Seq::empty(), 0))
    } else {
        match parse_types(s, (n - 1) as nat) {
            Err(e) => Err(e),
            Ok((ts, k)) => if k <= s.len() {
                match parse_type(s.skip(k as int)) {
                    Ok((t, k2)) => Ok((ts.push(t), k + k2)),
                    Err(e) => Err(e),
                }
            } else {
                Err(DecodeError::UnexpectedEnd)
            },
        }
    }
}

/// A decoded type takes at least one byte and no more than there are.
pub proof fn lemma_parse_type_len(s: Seq<u8>)
    ensures
        parse_type(s) matches Ok((t, k)) ==> 1 <= k <= s.len(),
    decreases s.len(), 0nat,
{
    if s.len() > 0 && s[0] == MOD_ARRAY {
        lemma_parse_type_len(s.skip(1));
    } else if s.len() >= 2 && s[0] == MOD_TUPLE {
        lemma_parse_types_len(s.skip(2), s[1] as nat);
    }
}

/// Decoding `n` types yields `n` types and takes no more bytes than there are.
pub proof fn lemma_parse_types_len(s: Seq<u8>, n: nat)
    ensures
        parse_types(s, n) matches Ok((ts, k)) ==> ts.len() == n && k <= s.len(),
    decreases s.len(), n,
{
    if n > 0 {
        lemma_parse_types_len(s, (n - 1) as nat);
        if let Ok((ts, k)) = parse_types(s, (n - 1) as nat) {
            if k <= s.len() {
                lemma_parse_type_len(s.skip(k as int));
            }
        }
    }
}

/// Once decoding `m` types fails, decoding more fails with the same error.
pub proof fn lemma_parse_types_err(s: Seq<u8>, m: nat, n: nat)
    requires
        m <= n,
        parse_types(s, m) is Err,
    ensures
        parse_types(s, n) == parse_types(s, m),
    decreases n,
{
    if n > m {
        lemma_parse_types_err(s, m, (n - 1) as nat);
    }
}

/// A byte cursor over borrowed data.
pub struct Cursor<'a> {
    data: &'a [u8],
    pos: usize,
}

impl<'a> Cursor<'a> {
    /// The bytes the cursor reads from.
    pub closed spec fn data(&self) -> Seq<u8> {
        self.data@
    }

    /// How many bytes have been read.
    pub closed spec fn pos(&self) -> int {
        self.pos as int
    }

    /// The bytes not read yet.
    pub open spec fn rest(&self) -> Seq<u8> {
        self.data().skip(self.pos())
    }

    /// The position lies within the data.
    pub open spec fn wf(&self) -> bool {
        0 <= self.pos() <= self.data().len()
    }

    /// A cursor at the start of `data`.
    pub fn new(data: &'a [u8]) -> (c: Self)
        ensures
            c.data() == data@,
            c.pos() == 0,
            c.wf(),
    {
        Self { data, pos: 0 }
    }

    /// Reads the next byte.
    pub fn read_byte(&mut self) -> (r: Result<u8, &'static str>)
        requires
            old(self).wf(),
        ensures
            final(self).wf(),
            final(self).data() == old(self).data(),
            match r {
                Ok(b) => old(self).rest().len() >= 1 && b == old(self).rest()[0]
                    && final(self).pos() == old(self).pos() + 1,
                Err(m) => old(self).rest().len() == 0 && m@ == "unexpected end of data"@
                    && final(self).pos() == old(self).pos(),
            },
    {
        if self.pos >= self.data.len() {
            return Err("unexpected end of data");
        }
        let b = self.data[self.pos];
        self.pos += 1;
        Ok(b)
    }

    /// Reads the next `n` bytes.
    pub fn read_bytes(&mut self, n: usize) -> (r: Result<&'a [u8], &'static str>)
        requires
            old(self).wf(),
        ensures
            final(self).wf(),
            final(self).data() == old(self).data(),
            match r {
                Ok(sl) => n <= old(self).rest().len() && sl@ == old(self).rest().take(n as int)
                    && final(self).pos() == old(self).pos() + n,
                Err(m) => n > old(self).rest().len() && m@ == "unexpected end of data"@
                    && final(self).pos() == old(self).pos(),
            },
    {
        if n > self.data.len() - self.pos {
            return Err("unexpected end of data");
        }
        let slice = vstd::slice::slice_subrange(self.data, self.pos, self.pos + n);
        assert(slice@ =~= old(self).rest().take(n as int));
        self.pos += n;
        Ok(slice)
    }

    /// Reads a big-endian `u16`.
    pub fn read_u16_be(&mut self) -> (r: Result<u16, &'static str>)
        requires
            old(self).wf(),
        ensures
            final(self).wf(),
            final(self).data() == old(self).data(),
            match r {
                Ok(v) => old(self).rest().len() >= 2
                    && v == old(self).rest()[0] as nat * 256 + old(self).rest()[1] as nat
                    && final(self).pos() == old(self).pos() + 2,
                Err(m) => old(self).rest().len() < 2 && m@ == "unexpected end of data"@
                    && final(self).pos() == old(self).pos(),
            },
    {
        let b = match self.read_bytes(2) {
            Ok(b) => b,
            Err(e) => return Err(e),
        };
        Ok((b[0] as u16) * 256 + (b[1] as u16))
    }
}

/// What decoding a value from a cursor promises: on success the value and the bytes
/// taken agree with `spec`, on failure the message is the one of `spec`'s error.
pub open spec fn decoded<T, V>(
    spec: Result<(V, nat), DecodeError>,
    r: Result<T, &'static str>,
    view: spec_fn(T) -> V,
    taken: int,
) -> bool {
    match r {
        Ok(v) => spec matches Ok((sv, k)) && sv == view(v) && k == taken,
        Err(m) => spec matches Err(e) && m@ == error_text(e),
    }
}

/// Decodes one type at the cursor.
pub fn decode_type(cur: &mut Cursor) -> (r: Result<AbiType, &'static str>)
    requires
        old(cur).wf(),
    ensures
        final(cur).wf(),
        final(cur).data() == old(cur).data(),
        decoded(parse_type(old(cur).rest()), r, |t: AbiType| t@, final(cur).pos() - old(cur).pos()),
    decreases old(cur).data().len() - old(cur).pos(), 0nat,
{
    let ghost s = cur.rest();
    let tag = match cur.read_byte() {
        Ok(b) => b,
        Err(e) => return Err(e),
    };
    assert(cur.rest() =~= s.skip(1));
    if tag == T_UINT256 {
        Ok(AbiType::Uint256)
    } else if tag == T_UINT8 {
        Ok(AbiType::Uint8)
    } else if tag == T_UINT16 {
        Ok(AbiType::Uint16)
    } else if tag == T_UINT32 {
        Ok(AbiType::Uint32)
    } else if tag == T_UINT64 {
        Ok(AbiType::Uint64)
    } else if tag == T_UINT128 {
        Ok(AbiType::Uint128)
    } else if tag == T_ADDRESS {
        Ok(AbiType::Address)
    } else if tag == T_BOOL {
        Ok(AbiType::Bool)
    } else if tag == T_BYTES32 {
        Ok(AbiType::Bytes32)
    } else if tag == T_BYTES_N {
        let n = match cur.read_byte() {
            Ok(b) => b,
            Err(e) => return Err(e),
        };
        Ok(AbiType::BytesN(n))
    } else if tag == T_STRING {
        Ok(AbiType::AbiString)
    } else if tag == T_BYTES {
        Ok(AbiType::Bytes)
    } else if tag == MOD_ARRAY {
        let inner = match decode_type(cur) {
            Ok(t) => t,
            Err(e) => return Err(e),
        };
        Ok(AbiType::Array(Box::new(inner)))
    } else if tag == MOD_TUPLE {
        let count = match cur.read_byte() {
            Ok(b) => b,
            Err(e) => return Err(e),
        };
        assert(cur.rest() =~= s.skip(2));
        let fields = match decode_types(cur, count as usize) {
            Ok(fs) => fs,
            Err(e) => return Err(e),
        };
        Ok(AbiType::Tuple(fields))
    } else {
        Err("unknown type tag")
    }
}

/// Decodes `count` types, one after the other, at the cursor.
fn decode_types(cur: &mut Cursor, count: usize) -> (r: Result<Vec<AbiType>, &'static str>)
    requires
        old(cur).wf(),
    ensures
        final(cur).wf(),
        final(cur).data() == old(cur).data(),
        decoded(
            parse_types(old(cur).rest(), count as nat),
            r,
            |v: Vec<AbiType>| abi::types_view(v@),
            final(cur).pos() - old(cur).pos(),
        ),
    decreases old(cur).data().len() - old(cur).pos(), 1nat,
{
    let ghost s = cur.rest();
    let ghost p0 = cur.pos();
    let ghost d = cur.data();
    let mut fields: Vec<AbiType> = Vec::with_capacity(count);
    let mut i: usize = 0;
    assert(abi::types_view(fields@) =~= Seq::<TypeSpec>::empty());
    while i < count
        invariant
            i <= count,
            cur.wf(),
            cur.data() == d,
            p0 <= cur.pos(),
            p0 == old(cur).pos(),
            d == old(cur).data(),
            0 <= p0 <= d.len(),
            s == d.skip(p0),
            parse_types(s, i as nat) == Ok::<(Seq<TypeSpec>, nat), DecodeError>((abi::types_view(fields@), (cur.pos() - p0) as nat)),
        decreases count - i,
    {
        proof {
            lemma_parse_types_len(s, i as nat);
            assert(cur.rest() =~= s.skip(cur.pos() - p0));
        }
        let ghost k = cur.pos() - p0;
        let ghost before = cur.pos();
        match decode_type(cur) {
            Ok(t) => {
                let ghost prev = fields@;
                fields.push(t);
                proof {
                    assert(fields@.drop_last() =~= prev);
                    assert(abi::types_view(fields@) == abi::types_view(prev).push(t@));
                }
            },
            Err(e) => {
                proof {
                    lemma_parse_types_err(s, (i + 1) as nat, count as nat);
                }
                return Err(e);
            },
        }
        i = i + 1;
    }
    Ok(fields)
}


/// Decodes a length-prefixed name from the front of `s`.
pub open spec fn parse_name(s: Seq<u8>) -> Result<(Seq<u8>, nat), DecodeError> {
    if s.len() == 0 {
        Err(DecodeError::UnexpectedEnd)
    } else if s.len() - 1 < s[0] {
        Err(DecodeError::UnexpectedEnd)
    } else {
        Ok((s.subrange(1, 1 + s[0]), 1 + s[0] as nat))
    }
}

/// Decodes a function payload: selector (skipped), name, inputs, outputs.
/// Bytes after the outputs are ignored.
pub open spec fn parse_function(s: Seq<u8>) -> Result<FunctionSpec, DecodeError> {
    if s.len() < 4 {
        Err(DecodeError::UnexpectedEnd)
    } else {
        let s1 = s.skip(4);
        match parse_name(s1) {
            Err(e) => Err(e),
            Ok((name, k1)) => {
                let s2 = s1.skip(k1 as int);
                if s2.len() == 0 {
                    Err(DecodeError::UnexpectedEnd)
                } else {
                    match parse_types(s2.skip(1), s2[0] as nat) {
                        Err(e) => Err(e),
                        Ok((inputs, k2)) => {
                            let s3 = s2.skip(1).skip(k2 as int);
                            if s3.len() == 0 {
                                Err(DecodeError::UnexpectedEnd)
                            } else {
                                match parse_types(s3.skip(1), s3[0] as nat) {
                                    Err(e) => Err(e),
                                    Ok((outputs, _)) => Ok(
                                        FunctionSpec { name, inputs, outputs },
                                    ),
                                }
                            }
                        },
                    }
                }
            },
        }
    }
}

/// Decodes `n` event parameters (flag byte, then type), one after the other.
pub open spec fn parse_params(s: Seq<u8>, n: nat) -> Result<(Seq<ParamSpec>, nat), DecodeError>
    decreases n,
{
    if n == 0 {
        Ok((Seq::empty(), 0))
    } else {
        match parse_params(s, (n - 1) as nat) {
            Err(e) => Err(e),
            Ok((ps, k)) => {
                let r = s.skip(k as int);
                if r.len() == 0 {
                    Err(DecodeError::UnexpectedEnd)
                } else {
                    match parse_type(r.skip(1)) {
                        Ok((t, k2)) => Ok(
                            (ps.push(ParamSpec { ty: t, indexed: r[0] % 2 == 1 }), k + 1 + k2),
                        ),
                        Err(e) => Err(e),
                    }
                }
            },
        }
    }
}

/// Decodes an event payload: name, then parameters.
pub open spec fn parse_event(s: Seq<u8>) -> Result<EventSpec, DecodeError> {
    match parse_name(s) {
        Err(e) => Err(e),
        Ok((name, k1)) => {
            let s2 = s.skip(k1 as int);
            if s2.len() == 0 {
                Err(DecodeError::UnexpectedEnd)
            } else {
                match parse_params(s2.skip(1), s2[0] as nat) {
                    Err(e) => Err(e),
                    Ok((params, _)) => Ok(EventSpec { name, params }),
                }
            }
        },
    }
}

/// Decodes an error payload: selector (skipped), name, parameter types.
pub open spec fn parse_error(s: Seq<u8>) -> Result<ErrorSpec, DecodeError> {
    if s.len() < 4 {
        Err(DecodeError::UnexpectedEnd)
    } else {
        let s1 = s.skip(4);
        match parse_name(s1) {
            Err(e) => Err(e),
            Ok((name, k1)) => {
                let s2 = s1.skip(k1 as int);
                if s2.len() == 0 {
                    Err(DecodeError::UnexpectedEnd)
                } else {
                    match parse_types(s2.skip(1), s2[0] as nat) {
                        Err(e) => Err(e),
                        Ok((params, _)) => Ok(ErrorSpec { name, params }),
                    }
                }
            },
        }
    }
}

/// Decodes one entry: kind, payload length, payload.
pub open spec fn parse_entry(s: Seq<u8>) -> Result<(EntrySpec, nat), DecodeError> {
    if s.len() < 3 {
        Err(DecodeError::UnexpectedEnd)
    } else {
        let len = s[1] as nat * 256 + s[2] as nat;
        if s.len() - 3 < len {
            Err(DecodeError::UnexpectedEnd)
        } else {
            let payload = s.subrange(3, 3 + len as int);
            if s[0] == ENTRY_FUNCTION {
                match parse_function(payload) {
                    Ok(f) => Ok((EntrySpec::Function(f), 3 + len)),
                    Err(e) => Err(e),
                }
            } else if s[0] == ENTRY_EVENT {
                match parse_event(payload) {
                    Ok(v) => Ok((EntrySpec::Event(v), 3 + len)),
                    Err(e) => Err(e),
                }
            } else if s[0] == ENTRY_ERROR {
                match parse_error(payload) {
                    Ok(r) => Ok((EntrySpec::Error(r), 3 + len)),
                    Err(e) => Err(e),
                }
            } else {
                Err(DecodeError::UnknownEntryType)
            }
        }
    }
}

/// Decodes `n` entries, one after the other.
pub open spec fn parse_entries(s: Seq<u8>, n: nat) -> Result<(Seq<EntrySpec>, nat), DecodeError>
    decreases n,
{
    if n == 0 {
        Ok((Seq::empty(), 0))
    } else {
        match parse_entries(s, (n - 1) as nat) {
            Err(e) => Err(e),
            Ok((es, k)) => match parse_entry(s.skip(k as int)) {
                Ok((e, k2)) => Ok((es.push(e), k + k2)),
                Err(e) => Err(e),
            },
        }
    }
}

/// The functions among `es`, in order.
pub open spec fn functions_of(es: Seq<EntrySpec>) -> Seq<FunctionSpec>
    decreases es.len(),
{
    if es.len() == 0 {
        Seq::empty()
    } else {
        match es.last() {
            EntrySpec::Function(f) => functions_of(es.drop_last()).push(f),
            _ => functions_of(es.drop_last()),
        }
    }
}

/// The events among `es`, in order.
pub open spec fn events_of(es: Seq<EntrySpec>) -> Seq<EventSpec>
    decreases es.len(),
{
    if es.len() == 0 {
        Seq::empty()
    } else {
        match es.last() {
            EntrySpec::Event(v) => events_of(es.drop_last()).push(v),
            _ => events_of(es.drop_last()),
        }
    }
}

/// The errors among `es`, in order.
pub open spec fn errors_of(es: Seq<EntrySpec>) -> Seq<ErrorSpec>
    decreases es.len(),
{
    if es.len() == 0 {
        Seq::empty()
    } else {
        match es.last() {
            EntrySpec::Error(r) => errors_of(es.drop_last()).push(r),
            _ => errors_of(es.drop_last()),
        }
    }
}

/// The blob that holds the entries `es`, each in the list of its kind.
pub open spec fn group_entries(es: Seq<EntrySpec>) -> BlobSpec {
    BlobSpec { functions: functions_of(es), events: events_of(es), errors: errors_of(es) }
}

/// Decodes a whole blob: the entry count, then that many entries. Bytes after them are ignored.
pub open spec fn parse_blob(d: Seq<u8>) -> Result<BlobSpec, DecodeError> {
    if d.len() == 0 {
        Err(DecodeError::UnexpectedEnd)
    } else {
        match parse_entries(d.skip(1), d[0] as nat) {
            Ok((es, _)) => Ok(group_entries(es)),
            Err(e) => Err(e),
        }
    }
}

/// Decoding `n` event parameters yields `n` and takes no more bytes than there are.
pub proof fn lemma_parse_params_len(s: Seq<u8>, n: nat)
    ensures
        parse_params(s, n) matches Ok((ps, k)) ==> ps.len() == n && k <= s.len(),
    decreases n,
{
    if n > 0 {
        lemma_parse_params_len(s, (n - 1) as nat);
        if let Ok((ps, k)) = parse_params(s, (n - 1) as nat) {
            let r = s.skip(k as int);
            if r.len() > 0 {
                lemma_parse_type_len(r.skip(1));
            }
        }
    }
}

/// Once decoding `m` parameters fails, decoding more fails with the same error.
pub proof fn lemma_parse_params_err(s: Seq<u8>, m: nat, n: nat)
    requires
        m <= n,
        parse_params(s, m) is Err,
    ensures
        parse_params(s, n) == parse_params(s, m),
    decreases n,
{
    if n > m {
        lemma_parse_params_err(s, m, (n - 1) as nat);
    }
}

/// Decoding `n` entries yields `n` and takes no more bytes than there are.
pub proof fn lemma_parse_entries_len(s: Seq<u8>, n: nat)
    ensures
        parse_entries(s, n) matches Ok((es, k)) ==> es.len() == n && k <= s.len(),
    decreases n,
{
    if n > 0 {
        lemma_parse_entries_len(s, (n - 1) as nat);
    }
}

/// Once decoding `m` entries fails, decoding more fails with the same error.
pub proof fn lemma_parse_entries_err(s: Seq<u8>, m: nat, n: nat)
    requires
        m <= n,
        parse_entries(s, m) is Err,
    ensures
        parse_entries(s, n) == parse_entries(s, m),
    decreases n,
{
    if n > m {
        lemma_parse_entries_err(s, m, (n - 1) as nat);
    }
}

/// What decoding a payload promises: the value of `spec` on success, its message on failure.
pub open spec fn outcome<T, V>(
    spec: Result<V, DecodeError>,
    r: Result<T, &'static str>,
    view: spec_fn(T) -> V,
) -> bool {
    match r {
        Ok(v) => spec == Ok::<V, DecodeError>(view(v)),
        Err(m) => spec matches Err(e) && m@ == error_text(e),
    }
}

fn decode_name(cur: &mut Cursor) -> (r: Result<Vec<u8>, &'static str>)
    requires
        old(cur).wf(),
    ensures
        final(cur).wf(),
        final(cur).data() == old(cur).data(),
        decoded(parse_name(old(cur).rest()), r, |v: Vec<u8>| v@, final(cur).pos() - old(cur).pos()),
{
    let ghost s = cur.rest();
    let len = match cur.read_byte() {
        Ok(b) => b,
        Err(e) => return Err(e),
    };
    assert(cur.rest() =~= s.skip(1));
    let bytes = match cur.read_bytes(len as usize) {
        Ok(b) => b,
        Err(e) => return Err(e),
    };
    assert(bytes@ =~= s.subrange(1, 1 + len));
    Ok(vstd::slice::slice_to_vec(bytes))
}

fn decode_function(cur: &mut Cursor) -> (r: Result<AbiFunction, &'static str>)
    requires
        old(cur).wf(),
    ensures
        outcome(parse_function(old(cur).rest()), r, |f: AbiFunction| f@),
{
    let ghost s = cur.rest();
    let _selector = match cur.read_bytes(4) {
        Ok(b) => b,
        Err(e) => return Err(e),
    };
    let ghost s1 = s.skip(4);
    assert(cur.rest() =~= s1);
    let ghost p1 = cur.pos();
    let name = match decode_name(cur) {
        Ok(n) => n,
        Err(e) => return Err(e),
    };
    let ghost s2 = s1.skip(cur.pos() - p1);
    assert(cur.rest() =~= s2);
    let input_count = match cur.read_byte() {
        Ok(b) => b,
        Err(e) => return Err(e),
    };
    assert(cur.rest() =~= s2.skip(1));
    let ghost p2 = cur.pos();
    let inputs = match decode_types(cur, input_count as usize) {
        Ok(v) => v,
        Err(e) => return Err(e),
    };
    let ghost s3 = s2.skip(1).skip(cur.pos() - p2);
    assert(cur.rest() =~= s3);
    let output_count = match cur.read_byte() {
        Ok(b) => b,
        Err(e) => return Err(e),
    };
    assert(cur.rest() =~= s3.skip(1));
    let outputs = match decode_types(cur, output_count as usize) {
        Ok(v) => v,
        Err(e) => return Err(e),
    };
    Ok(AbiFunction { name, inputs, outputs })
}

fn decode_event(cur: &mut Cursor) -> (r: Result<AbiEvent, &'static str>)
    requires
        old(cur).wf(),
    ensures
        outcome(parse_event(old(cur).rest()), r, |e: AbiEvent| e@),
{
    let ghost s = cur.rest();
    let ghost p0 = cur.pos();
    let name = match decode_name(cur) {
        Ok(n) => n,
        Err(e) => return Err(e),
    };
    let ghost s2 = s.skip(cur.pos() - p0);
    assert(cur.rest() =~= s2);
    let param_count = match cur.read_byte() {
        Ok(b) => b,
        Err(e) => return Err(e),
    };
    let ghost ps = s2.skip(1);
    let ghost d = cur.data();
    let ghost q0 = cur.pos();
    assert(cur.rest() =~= ps);
    let mut params: Vec<EventParam> = Vec::with_capacity(param_count as usize);
    let mut i: usize = 0;
    assert(params@.map_values(|p: EventParam| p@) =~= Seq::<ParamSpec>::empty());
    while i < param_count as usize
        invariant
            i <= param_count,
            cur.wf(),
            cur.data() == d,
            0 <= q0 <= cur.pos(),
            ps == d.skip(q0),
            s == old(cur).rest(),
            parse_event(s) == match parse_params(ps, param_count as nat) {
                Err(e) => Err(e),
                Ok((pl, _)) => Ok(EventSpec { name: name@, params: pl }),
            },
            parse_params(ps, i as nat) == Ok::<(Seq<ParamSpec>, nat), DecodeError>(
                (params@.map_values(|p: EventParam| p@), (cur.pos() - q0) as nat),
            ),
        decreases param_count - i,
    {
        proof {
            lemma_parse_params_len(ps, i as nat);
        }
        let ghost r0 = ps.skip(cur.pos() - q0);
        assert(cur.rest() =~= r0);
        let flags = match cur.read_byte() {
            Ok(b) => b,
            Err(e) => {
                proof {
                    lemma_parse_params_err(ps, (i + 1) as nat, param_count as nat);
                }
                return Err(e);
            },
        };
        let indexed = (flags & 0x01) != 0;
        assert(((flags & 0x01u8) != 0u8) == (flags % 2 == 1)) by (bit_vector);
        assert(cur.rest() =~= r0.skip(1));
        let ty = match decode_type(cur) {
            Ok(t) => t,
            Err(e) => {
                proof {
                    lemma_parse_params_err(ps, (i + 1) as nat, param_count as nat);
                }
                return Err(e);
            },
        };
        let ghost prev = params@;
        params.push(EventParam { ty, indexed });
        assert(params@.map_values(|p: EventParam| p@) =~= prev.map_values(|p: EventParam| p@).push(
            params@[i as int]@,
        ));
        i = i + 1;
    }
    Ok(AbiEvent { name, params })
}

fn decode_error(cur: &mut Cursor) -> (r: Result<AbiError, &'static str>)
    requires
        old(cur).wf(),
    ensures
        outcome(parse_error(old(cur).rest()), r, |e: AbiError| e@),
{
    let ghost s = cur.rest();
    let _selector = match cur.read_bytes(4) {
        Ok(b) => b,
        Err(e) => return Err(e),
    };
    let ghost s1 = s.skip(4);
    assert(cur.rest() =~= s1);
    let ghost p1 = cur.pos();
    let name = match decode_name(cur) {
        Ok(n) => n,
        Err(e) => return Err(e),
    };
    let ghost s2 = s1.skip(cur.pos() - p1);
    assert(cur.rest() =~= s2);
    let count = match cur.read_byte() {
        Ok(b) => b,
        Err(e) => return Err(e),
    };
    assert(cur.rest() =~= s2.skip(1));
    let params = match decode_types(cur, count as usize) {
        Ok(v) => v,
        Err(e) => return Err(e),
    };
    Ok(AbiError { name, params })
}

/// One decoded entry, before it is filed under its kind.
enum DecodedEntry {
    Function(AbiFunction),
    Event(AbiEvent),
    Error(AbiError),
}

impl View for DecodedEntry {
    type V = EntrySpec;

    closed spec fn view(&self) -> EntrySpec {
        match self {
            DecodedEntry::Function(f) => EntrySpec::Function(f@),
            DecodedEntry::Event(v) => EntrySpec::Event(v@),
            DecodedEntry::Error(r) => EntrySpec::Error(r@),
        }
    }
}

/// Decodes one entry at the cursor: kind, payload length, payload.
fn decode_entry(cur: &mut Cursor) -> (r: Result<DecodedEntry, &'static str>)
    requires
        old(cur).wf(),
    ensures
        final(cur).wf(),
        final(cur).data() == old(cur).data(),
        decoded(parse_entry(old(cur).rest()), r, |e: DecodedEntry| e@, final(cur).pos() - old(cur).pos()),
{
    let ghost r0 = cur.rest();
    let entry_type = match cur.read_byte() {
        Ok(b) => b,
        Err(e) => return Err(e),
    };
    assert(cur.rest() =~= r0.skip(1));
    let length = match cur.read_u16_be() {
        Ok(v) => v as usize,
        Err(e) => return Err(e),
    };
    assert(cur.rest() =~= r0.skip(3));
    let entry_data = match cur.read_bytes(length) {
        Ok(b) => b,
        Err(e) => return Err(e),
    };
    assert(entry_data@ =~= r0.subrange(3, 3 + length));
    let mut ec = Cursor::new(entry_data);
    assert(ec.rest() =~= entry_data@);
    if entry_type == ENTRY_FUNCTION {
        match decode_function(&mut ec) {
            Ok(f) => Ok(DecodedEntry::Function(f)),
            Err(e) => Err(e),
        }
    } else if entry_type == ENTRY_EVENT {
        match decode_event(&mut ec) {
            Ok(v) => Ok(DecodedEntry::Event(v)),
            Err(e) => Err(e),
        }
    } else if entry_type == ENTRY_ERROR {
        match decode_error(&mut ec) {
            Ok(r) => Ok(DecodedEntry::Error(r)),
            Err(e) => Err(e),
        }
    } else {
        Err("unknown entry type")
    }
}

/// Decodes a whole binary blob. It fails, with no partial result, on any read past the end,
/// unknown type tag or unknown entry kind.
pub fn decode_blob(data: &[u8]) -> (r: Result<AbiBlob, &'static str>)
    ensures
        outcome(parse_blob(data@), r, |b: AbiBlob| b@),
{
    let mut cur = Cursor::new(data);
    let entry_count = match cur.read_byte() {
        Ok(b) => b,
        Err(e) => return Err(e),
    };
    let ghost s = data@.skip(1);
    let mut blob = AbiBlob { functions: Vec::new(), events: Vec::new(), errors: Vec::new() };
    let ghost mut es: Seq<EntrySpec> = Seq::empty();
    assert(blob@ =~= group_entries(es));
    let mut i: usize = 0;
    while i < entry_count as usize
        invariant
            i <= entry_count,
            cur.wf(),
            cur.data() == data@,
            1 <= cur.pos(),
            s == data@.skip(1),
            data@.len() >= 1,
            entry_count == data@[0],
            parse_entries(s, i as nat) == Ok::<(Seq<EntrySpec>, nat), DecodeError>(
                (es, (cur.pos() - 1) as nat),
            ),
            blob@ == group_entries(es),
        decreases entry_count - i,
    {
        assert(cur.rest() =~= s.skip(cur.pos() - 1));
        let entry = match decode_entry(&mut cur) {
            Ok(e) => e,
            Err(e) => {
                proof {
                    lemma_parse_entries_err(s, (i + 1) as nat, entry_count as nat);
                }
                return Err(e);
            },
        };
        let ghost prev = blob@;
        let ghost prev_es = es;
        proof {
            es = es.push(entry@);
            assert(es.drop_last() =~= prev_es);
        }
        match entry {
            DecodedEntry::Function(f) => {
                blob.functions.push(f);
                assert(blob@.functions =~= prev.functions.push(entry@->Function_0));
            },
            DecodedEntry::Event(v) => {
                blob.events.push(v);
                assert(blob@.events =~= prev.events.push(entry@->Event_0));
            },
            DecodedEntry::Error(r) => {
                blob.errors.push(r);
                assert(blob@.errors =~= prev.errors.push(entry@->Error_0));
            },
        }
        assert(blob@ =~= group_entries(es));
        i = i + 1;
    }
    Ok(blob)
}


/// The stem of a decoded file with one trailing `.abi` removed.
pub open spec fn spec_json_base(stem: Seq<char>) -> Seq<char> {
    if ".abi"@.len() <= stem.len() && stem.skip(stem.len() - ".abi"@.len()) == ".abi"@ {
        stem.take(stem.len() - ".abi"@.len())
    } else {
        stem
    }
}

/// Where the JSON decoded from `src` is written: `<base>.json` beside it, where `src` is
/// `<base>.abi.bin` or `<base>.bin`.
pub open spec fn spec_decoded_path(src: Seq<char>) -> Seq<char> {
    text::spec_with_file_name(src, spec_json_base(encode::spec_stem_or_empty(src)) + ".json"@)
}

/// The path `<base>.json` beside `src`.
pub fn output_path(src: &str) -> (p: String)
    ensures
        p@ == spec_decoded_path(src@),
{
    let stem = match text::file_stem(src) {
        Some(s) => s,
        None => String::new(),
    };
    let s = stem.as_str();
    let mut name = if text::ends_with(s, ".abi") {
        let n = s.unicode_len();
        let m = ".abi".unicode_len();
        String::from_str(s.substring_char(0, n - m))
    } else {
        String::from_str(s)
    };
    name.append(".json");
    text::with_file_name(src, name.as_str())
}

} // verus!
