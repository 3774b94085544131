use vstd::prelude::*;

verus! {

/// Tag byte of `uint256` (and every other integer width that has no tag of its own).
pub const T_UINT256: u8 = 0x01;
/// Tag byte of `address`.
pub const T_ADDRESS: u8 = 0x02;
/// Tag byte of `bool`.
pub const T_BOOL: u8 = 0x03;
/// Tag byte of `bytes32`.
pub const T_BYTES32: u8 = 0x04;
/// Tag byte of `string`.
pub const T_STRING: u8 = 0x05;
/// Tag byte of `bytes`.
pub const T_BYTES: u8 = 0x06;
/// Tag byte of `uint8`.
pub const T_UINT8: u8 = 0x07;
/// Tag byte of `uint16`.
pub const T_UINT16: u8 = 0x08;
/// Tag byte of `uint32`.
pub const T_UINT32: u8 = 0x09;
/// Tag byte of `uint64`.
pub const T_UINT64: u8 = 0x0A;
/// Tag byte of `uint128`.
pub const T_UINT128: u8 = 0x0B;
/// `0x0C <n>`: bytesN, followed by the width byte.
pub const T_BYTES_N: u8 = 0x0C;
/// `0x20 <type>`: dynamic array of the inner type.
pub const MOD_ARRAY: u8 = 0x20;
/// `0x30 <count> <type>*`: tuple of `count` fields.
pub const MOD_TUPLE: u8 = 0x30;
/// Entry kind of a function.
pub const ENTRY_FUNCTION: u8 = 0x01;
/// Entry kind of an event.
pub const ENTRY_EVENT: u8 = 0x02;
/// Entry kind of an error.
pub const ENTRY_ERROR: u8 = 0x03;

/// A Solidity ABI type as the binary codec knows it.
#[derive(Debug, PartialEq)]
pub enum AbiType {
    Uint256,
    Uint8,
    Uint16,
    Uint32,
    Uint64,
    Uint128,
    Address,
    Bool,
    Bytes32,
    /// Parameterized bytesN, n in 1..=4.
    BytesN(u8),
    AbiString,
    Bytes,
    Array(Box<AbiType>),
    Tuple(Vec<AbiType>),
}

/// The mathematical value of an [`AbiType`]: the same tree, with sequences for tuples.
pub enum TypeSpec {
    Uint256,
    Uint8,
    Uint16,
    Uint32,
    Uint64,
    Uint128,
    Address,
    Bool,
    Bytes32,
    BytesN(u8),
    AbiString,
    Bytes,
    Array(Box<TypeSpec>),
    Tuple(Seq<TypeSpec>),
}

impl View for AbiType {
    type V = TypeSpec;

    open spec fn view(&self) -> TypeSpec
        decreases self,
    {
        match self {
            AbiType::Uint256 => TypeSpec::Uint256,
            AbiType::Uint8 => TypeSpec::Uint8,
            AbiType::Uint16 => TypeSpec::Uint16,
            AbiType::Uint32 => TypeSpec::Uint32,
            AbiType::Uint64 => TypeSpec::Uint64,
            AbiType::Uint128 => TypeSpec::Uint128,
            AbiType::Address => TypeSpec::Address,
            AbiType::Bool => TypeSpec::Bool,
            AbiType::Bytes32 => TypeSpec::Bytes32,
            AbiType::BytesN(n) => TypeSpec::BytesN(*n),
            AbiType::AbiString => TypeSpec::AbiString,
            AbiType::Bytes => TypeSpec::Bytes,
            AbiType::Array(inner) => TypeSpec::Array(Box::new((**inner).view())),
            AbiType::Tuple(fields) => TypeSpec::Tuple(types_view(fields@)),
        }
    }
}

/// The element-wise view of a sequence of types.
pub open spec fn types_view(s: Seq<AbiType>) -> Seq<TypeSpec>
    decreases s,
{
    if s.len() == 0 {
        Seq::empty()
    } else {
        types_view(s.drop_last()).push(s.last().view())
    }
}

/// `types_view` keeps the length and maps each element to its view.
pub proof fn lemma_types_view(s: Seq<AbiType>)
    ensures
        types_view(s).len() == s.len(),
        forall|i: int| 0 <= i < s.len() ==> #[trigger] types_view(s)[i] == s[i].view(),
    decreases s.len(),
{
    if s.len() > 0 {
        lemma_types_view(s.drop_last());
        assert(types_view(s) == types_view(s.drop_last()).push(s.last().view()));
    } else {
        assert(types_view(s) == Seq::<TypeSpec>::empty());
    }
}


/// The decimal digit `d` (0..=9) as a one-character string.
pub open spec fn spec_digit(d: u8) -> Seq<char> {
    if d == 0 { "0"@ }
    else if d == 1 { "1"@ }
    else if d == 2 { "2"@ }
    else if d == 3 { "3"@ }
    else if d == 4 { "4"@ }
    else if d == 5 { "5"@ }
    else if d == 6 { "6"@ }
    else if d == 7 { "7"@ }
    else if d == 8 { "8"@ }
    else { "9"@ }
}

/// The decimal text of a byte, without leading zeros.
pub open spec fn spec_decimal(n: u8) -> Seq<char> {
    if n < 10 {
        spec_digit(n)
    } else if n < 100 {
        spec_digit(n / 10) + spec_digit(n % 10)
    } else {
        spec_digit(n / 100) + spec_digit((n / 10) % 10) + spec_digit(n % 10)
    }
}

/// Appends the digit `d` to `s`.
fn push_digit(s: &mut String, d: u8)
    requires
        d < 10,
    ensures
        final(s)@ == old(s)@ + spec_digit(d),
{
    if d == 0 { s.append("0") }
    else if d == 1 { s.append("1") }
    else if d == 2 { s.append("2") }
    else if d == 3 { s.append("3") }
    else if d == 4 { s.append("4") }
    else if d == 5 { s.append("5") }
    else if d == 6 { s.append("6") }
    else if d == 7 { s.append("7") }
    else if d == 8 { s.append("8") }
    else { s.append("9") }
}

/// Appends the decimal text of `n` to `s`.
pub fn push_decimal(s: &mut String, n: u8)
    ensures
        final(s)@ == old(s)@ + spec_decimal(n),
{
    if n < 10 {
        push_digit(s, n);
    } else if n < 100 {
        push_digit(s, n / 10);
        push_digit(s, n % 10);
    } else {
        push_digit(s, n / 100);
        push_digit(s, (n / 10) % 10);
        push_digit(s, n % 10);
    }
}

/// The decimal text of a count, without leading zeros.
pub open spec fn spec_count_decimal(n: nat) -> Seq<char>
    decreases n,
{
    if n < 10 {
        spec_digit(n as u8)
    } else {
        spec_count_decimal(n / 10) + spec_digit((n % 10) as u8)
    }
}

/// Appends the decimal text of the count `n` to `s`.
pub fn push_count(s: &mut String, n: usize)
    ensures
        final(s)@ == old(s)@ + spec_count_decimal(n as nat),
    decreases n,
{
    if n >= 10 {
        push_count(s, n / 10);
    }
    push_digit(s, (n % 10) as u8);
    assert(s@ =~= old(s)@ + spec_count_decimal(n as nat));
}

/// The canonical Solidity spelling of a type: `uint256`, `bytes3`, `T[]`, `(T1,T2)`.
pub open spec fn spec_canonical(t: TypeSpec) -> Seq<char>
    decreases t,
{
    match t {
        TypeSpec::Uint256 => "uint256"@,
        TypeSpec::Uint8 => "uint8"@,
        TypeSpec::Uint16 => "uint16"@,
        TypeSpec::Uint32 => "uint32"@,
        TypeSpec::Uint64 => "uint64"@,
        TypeSpec::Uint128 => "uint128"@,
        TypeSpec::Address => "address"@,
        TypeSpec::Bool => "bool"@,
        TypeSpec::Bytes32 => "bytes32"@,
        TypeSpec::BytesN(n) => "bytes"@ + spec_decimal(n),
        TypeSpec::AbiString => "string"@,
        TypeSpec::Bytes => "bytes"@,
        TypeSpec::Array(inner) => spec_canonical(*inner) + "[]"@,
        TypeSpec::Tuple(fields) => "("@ + spec_canonical_list(fields) + ")"@,
    }
}

/// The canonical spellings of `ts`, joined by commas.
pub open spec fn spec_canonical_list(ts: Seq<TypeSpec>) -> Seq<char>
    decreases ts,
{
    if ts.len() == 0 {
        Seq::empty()
    } else if ts.len() == 1 {
        spec_canonical(ts[0])
    } else {
        spec_canonical_list(ts.drop_last()) + ","@ + spec_canonical(ts.last())
    }
}

impl AbiType {
    /// The canonical Solidity spelling of this type, as used in signatures.
    pub fn canonical(&self) -> (s: String)
        ensures
            s@ == spec_canonical(self@),
        decreases self,
    {
        match self {
            AbiType::Uint256 => String::from_str("uint256"),
            AbiType::Uint8 => String::from_str("uint8"),
            AbiType::Uint16 => String::from_str("uint16"),
            AbiType::Uint32 => String::from_str("uint32"),
            AbiType::Uint64 => String::from_str("uint64"),
            AbiType::Uint128 => String::from_str("uint128"),
            AbiType::Address => String::from_str("address"),
            AbiType::Bool => String::from_str("bool"),
            AbiType::Bytes32 => String::from_str("bytes32"),
            AbiType::BytesN(n) => {
                let mut s = String::from_str("bytes");
                push_decimal(&mut s, *n);
                s
            },
            AbiType::AbiString => String::from_str("string"),
            AbiType::Bytes => String::from_str("bytes"),
            AbiType::Array(inner) => {
                let mut s = inner.canonical();
                s.append("[]");
                s
            },
            AbiType::Tuple(fields) => {
                let mut s = String::from_str("(");
                s.append(canonical_list(fields).as_str());
                s.append(")");
                s
            },
        }
    }
}

/// The canonical spellings of `ts`, joined by commas.
pub fn canonical_list(ts: &Vec<AbiType>) -> (s: String)
    ensures
        s@ == spec_canonical_list(types_view(ts@)),
    decreases ts,
{
    proof {
        lemma_types_view(ts@);
    }
    let ghost tv = types_view(ts@);
    let mut s = String::new();
    let mut i: usize = 0;
    while i < ts.len()
        invariant
            i <= ts.len(),
            tv == types_view(ts@),
            tv.len() == ts@.len(),
            forall|j: int| 0 <= j < ts@.len() ==> #[trigger] tv[j] == ts@[j]@,
            s@ == spec_canonical_list(tv.take(i as int)),
        decreases ts.len() - i,
    {
        if i > 0 {
            s.append(",");
        }
        proof {
            assert(decreases_to!(ts => ts@[i as int]));
        }
        let c = ts[i].canonical();
        s.append(c.as_str());
        proof {
            let t1 = tv.take(i as int + 1);
            assert(t1.drop_last() =~= tv.take(i as int));
            assert(t1.last() == tv[i as int]);
            if i == 0 {
                assert(t1.len() == 1);
                assert(t1[0] == tv[0]);
            }
        }
        i = i + 1;
    }
    proof {
        assert(tv.take(ts.len() as int) =~= tv);
    }
    s
}


/// A function entry: its name bytes and its input and output types.
#[derive(Debug)]
pub struct AbiFunction {
    pub name: Vec<u8>,
    pub inputs: Vec<AbiType>,
    pub outputs: Vec<AbiType>,
}

/// One event parameter: its type and whether it is indexed.
#[derive(Debug)]
pub struct EventParam {
    pub ty: AbiType,
    pub indexed: bool,
}

/// An event entry.
#[derive(Debug)]
pub struct AbiEvent {
    pub name: Vec<u8>,
    pub params: Vec<EventParam>,
}

/// An error entry.
#[derive(Debug)]
pub struct AbiError {
    pub name: Vec<u8>,
    pub params: Vec<AbiType>,
}

/// The contents of a binary ABI blob: functions, then events, then errors.
#[derive(Debug)]
pub struct AbiBlob {
    pub functions: Vec<AbiFunction>,
    pub events: Vec<AbiEvent>,
    pub errors: Vec<AbiError>,
}

/// The value of an [`AbiFunction`].
#[verifier::ext_equal]
pub struct FunctionSpec {
    pub name: Seq<u8>,
    pub inputs: Seq<TypeSpec>,
    pub outputs: Seq<TypeSpec>,
}

/// The value of an [`EventParam`].
#[verifier::ext_equal]
pub struct ParamSpec {
    pub ty: TypeSpec,
    pub indexed: bool,
}

/// The value of an [`AbiEvent`].
#[verifier::ext_equal]
pub struct EventSpec {
    pub name: Seq<u8>,
    pub params: Seq<ParamSpec>,
}

/// The value of an [`AbiError`].
#[verifier::ext_equal]
pub struct ErrorSpec {
    pub name: Seq<u8>,
    pub params: Seq<TypeSpec>,
}

/// The value of an [`AbiBlob`].
#[verifier::ext_equal]
pub struct BlobSpec {
    pub functions: Seq<FunctionSpec>,
    pub events: Seq<EventSpec>,
    pub errors: Seq<ErrorSpec>,
}

impl View for AbiFunction {
    type V = FunctionSpec;

    open spec fn view(&self) -> FunctionSpec {
        FunctionSpec {
            name: self.name@,
            inputs: types_view(self.inputs@),
            outputs: types_view(self.outputs@),
        }
    }
}

impl View for EventParam {
    type V = ParamSpec;

    open spec fn view(&self) -> ParamSpec {
        ParamSpec { ty: self.ty@, indexed: self.indexed }
    }
}

impl View for AbiEvent {
    type V = EventSpec;

    open spec fn view(&self) -> EventSpec {
        EventSpec { name: self.name@, params: self.params@.map_values(|p: EventParam| p@) }
    }
}

impl View for AbiError {
    type V = ErrorSpec;

    open spec fn view(&self) -> ErrorSpec {
        ErrorSpec { name: self.name@, params: types_view(self.params@) }
    }
}

impl View for AbiBlob {
    type V = BlobSpec;

    open spec fn view(&self) -> BlobSpec {
        BlobSpec {
            functions: self.functions@.map_values(|f: AbiFunction| f@),
            events: self.events@.map_values(|e: AbiEvent| e@),
            errors: self.errors@.map_values(|e: AbiError| e@),
        }
    }
}

} // verus!
