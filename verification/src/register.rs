use vstd::prelude::*;
use vstd::utf8::encode_utf8;
use crate::text;
use crate::codex::hexfile;

verus! {

/// The Keccak-256 digest of `data`, as alloy computes it.
pub uninterp spec fn spec_alloy_keccak256(data: Seq<u8>) -> Seq<u8>;

/// `alloy::primitives::keccak256`. Trusted: its 32 bytes are named `spec_alloy_keccak256(data@)`.
#[verifier::external_body]
fn alloy_keccak256(data: &[u8]) -> (h: [u8; 32])
    ensures
        h@ == spec_alloy_keccak256(data@),
{
    alloy::primitives::keccak256(data).0
}

/// One namehash step: the hash of the parent node followed by the hash of the label.
pub open spec fn spec_namehash_step(parent: Seq<u8>, label: Seq<u8>) -> Seq<u8> {
    spec_alloy_keccak256(parent + spec_alloy_keccak256(label))
}

/// The node of `hara.ethnet`: the namehash of `ethnet`, then of `hara`, from the zero node.
pub open spec fn spec_parent_node() -> Seq<u8> {
    spec_namehash_step(
        spec_namehash_step(Seq::new(32, |i: int| 0u8), encode_utf8("ethnet"@)),
        encode_utf8("hara"@),
    )
}

/// The node of `<label>.hara.ethnet`.
pub open spec fn spec_node(label: Seq<char>) -> Seq<u8> {
    spec_namehash_step(spec_parent_node(), encode_utf8(label))
}

/// `parent` followed by the hash of `label`, hashed.
fn namehash_step(parent: &[u8], label: &[u8]) -> (h: [u8; 32])
    ensures
        h@ == spec_namehash_step(parent@, label@),
{
    let lh = alloy_keccak256(label);
    let mut buf: Vec<u8> = Vec::new();
    let mut i: usize = 0;
    while i < parent.len()
        invariant
            i <= parent@.len(),
            buf@ == parent@.take(i as int),
        decreases parent@.len() - i,
    {
        buf.push(parent[i]);
        i = i + 1;
        assert(buf@ =~= parent@.take(i as int));
    }
    let mut j: usize = 0;
    while j < 32
        invariant
            j <= 32,
            lh@.len() == 32,
            buf@ == parent@ + lh@.take(j as int),
        decreases 32 - j,
    {
        buf.push(lh[j]);
        j = j + 1;
        assert(buf@ =~= parent@ + lh@.take(j as int));
    }
    assert(lh@.take(32) =~= lh@);
    alloy_keccak256(buf.as_slice())
}

/// The namehash of the parent `hara.ethnet` node.
pub fn calc_parent_node() -> (h: [u8; 32])
    ensures
        h@ == spec_parent_node(),
{
    let empty_node = [0u8; 32];
    assert(empty_node@ =~= Seq::new(32, |i: int| 0u8));
    let ethnet_node = namehash_step(&empty_node, "ethnet".as_bytes());
    namehash_step(&ethnet_node, "hara".as_bytes())
}

/// The namehash of `<label>.hara.ethnet`.
pub fn calc_node(label: &str) -> (h: [u8; 32])
    ensures
        h@ == spec_node(label@),
{
    let hara_node = calc_parent_node();
    namehash_step(&hara_node, label.as_bytes())
}

/// Why no label can be taken from a path.
#[derive(Debug, PartialEq, Eq)]
pub enum LabelError {
    /// The path has no file name.
    InvalidFileName,
    /// Nothing alphanumeric is left of the file name.
    EmptyLabel,
}

/// The characters of `s` that are alphanumeric, in order.
pub open spec fn spec_keep_alphanumeric(s: Seq<char>) -> Seq<char>
    decreases s.len(),
{
    if s.len() == 0 {
        Seq::empty()
    } else if text::spec_is_alphanumeric(s.last()) {
        spec_keep_alphanumeric(s.drop_last()).push(s.last())
    } else {
        spec_keep_alphanumeric(s.drop_last())
    }
}

/// The label of a file: its stem without `.hara.ethnet` and `.hara` suffixes, lowercased,
/// keeping only alphanumeric characters; an error where there is no stem or nothing is left.
pub open spec fn spec_extract_label(path: Seq<char>) -> Result<Seq<char>, LabelError> {
    match text::spec_file_stem(path) {
        None => Err(LabelError::InvalidFileName),
        Some(stem) => {
            let base = text::spec_trim_end_matches(
                text::spec_trim_end_matches(stem, ".hara.ethnet"@),
                ".hara"@,
            );
            let label = spec_keep_alphanumeric(text::spec_to_lowercase(base));
            if label.len() == 0 {
                Err(LabelError::EmptyLabel)
            } else {
                Ok(label)
            }
        },
    }
}

/// The HNS subnode label of a file path.
pub fn extract_label(path: &str) -> (r: Result<String, LabelError>)
    ensures
        match r {
            Ok(l) => spec_extract_label(path@) == Ok::<Seq<char>, LabelError>(l@),
            Err(e) => spec_extract_label(path@) == Err::<Seq<char>, LabelError>(e),
        },
{
    let stem = match text::file_stem(path) {
        Some(s) => s,
        None => return Err(LabelError::InvalidFileName),
    };
    let base = text::trim_end_matches(
        text::trim_end_matches(stem.as_str(), ".hara.ethnet"),
        ".hara",
    );
    let lower = text::to_lowercase(base);
    let ls = lower.as_str();
    let n = ls.unicode_len();
    let mut label = String::new();
    let mut i: usize = 0;
    while i < n
        invariant
            n == ls@.len(),
            i <= n,
            label@ == spec_keep_alphanumeric(ls@.take(i as int)),
        decreases n - i,
    {
        let c = ls.get_char(i);
        if text::is_alphanumeric(c) {
            text::push_char(&mut label, c);
        }
        proof {
            let t = ls@.take(i + 1);
            assert(t.drop_last() =~= ls@.take(i as int));
            assert(t.last() == c);
        }
        i = i + 1;
    }
    assert(ls@.take(n as int) =~= ls@);
    if label.unicode_len() == 0 {
        return Err(LabelError::EmptyLabel);
    }
    Ok(label)
}


/// Keeping alphanumeric characters leaves only alphanumeric characters.
pub proof fn lemma_keep_alphanumeric(s: Seq<char>)
    ensures
        forall|i: int| 0 <= i < spec_keep_alphanumeric(s).len() ==> text::spec_is_alphanumeric(
            #[trigger] spec_keep_alphanumeric(s)[i],
        ),
    decreases s.len(),
{
    if s.len() > 0 {
        lemma_keep_alphanumeric(s.drop_last());
        let prev = spec_keep_alphanumeric(s.drop_last());
        if text::spec_is_alphanumeric(s.last()) {
            assert forall|i: int| 0 <= i < prev.push(s.last()).len() implies text::spec_is_alphanumeric(
                #[trigger] prev.push(s.last())[i],
            ) by {
                if i < prev.len() {
                    assert(prev.push(s.last())[i] == prev[i]);
                }
            }
        }
    }
}

/// A label taken from a path is never empty and holds only alphanumeric characters.
pub proof fn law_label_is_alphanumeric(path: Seq<char>)
    ensures
        spec_extract_label(path) matches Ok(l) ==> l.len() > 0 && forall|i: int|
            0 <= i < l.len() ==> text::spec_is_alphanumeric(#[trigger] l[i]),
{
    if let Some(stem) = text::spec_file_stem(path) {
        let base = text::spec_trim_end_matches(
            text::spec_trim_end_matches(stem, ".hara.ethnet"@),
            ".hara"@,
        );
        lemma_keep_alphanumeric(text::spec_to_lowercase(base));
    }
}

/// A character a label is made of once its file stem is ASCII: a lowercase letter or a
/// decimal digit.
pub open spec fn is_label_char(c: char) -> bool {
    let u = c as u32;
    (97 <= u && u <= 122) || (48 <= u && u <= 57)
}

proof fn lemma_trim_end_matches_prefix(s: Seq<char>, p: Seq<char>)
    ensures
        text::spec_trim_end_matches(s, p).len() <= s.len(),
        text::spec_trim_end_matches(s, p) == s.take(text::spec_trim_end_matches(s, p).len() as int),
    decreases s.len(),
{
    if p.len() > 0 && p.len() <= s.len() && s.subrange(s.len() - p.len(), s.len() as int) == p {
        let t = s.subrange(0, s.len() - p.len());
        lemma_trim_end_matches_prefix(t, p);
        let r = text::spec_trim_end_matches(t, p);
        assert(r == s.take(r.len() as int));
    } else {
        assert(s.take(s.len() as int) =~= s);
    }
}

proof fn lemma_keep_label_chars(s: Seq<char>)
    requires
        forall|i: int| 0 <= i < s.len() ==> text::is_ascii_char(#[trigger] s[i]) && !(65 <= (s[i] as u32)
            && (s[i] as u32) <= 90),
    ensures
        forall|j: int| 0 <= j < spec_keep_alphanumeric(s).len() ==> is_label_char(
            #[trigger] spec_keep_alphanumeric(s)[j],
        ),
    decreases s.len(),
{
    if s.len() > 0 {
        lemma_keep_label_chars(s.drop_last());
        let prev = spec_keep_alphanumeric(s.drop_last());
        if text::spec_is_alphanumeric(s.last()) {
            assert forall|j: int| 0 <= j < prev.push(s.last()).len() implies is_label_char(
                #[trigger] prev.push(s.last())[j],
            ) by {
                if j < prev.len() {
                    assert(prev.push(s.last())[j] == prev[j]);
                }
            }
        }
    }
}

proof fn lemma_keep_all_alphanumeric(s: Seq<char>)
    requires
        forall|i: int| 0 <= i < s.len() ==> text::spec_is_alphanumeric(#[trigger] s[i]),
    ensures
        spec_keep_alphanumeric(s) == s,
    decreases s.len(),
{
    if s.len() > 0 {
        lemma_keep_all_alphanumeric(s.drop_last());
        assert(s.drop_last().push(s.last()) =~= s);
    }
}

/// A label taken from a file whose stem is ASCII is made of lowercase letters and digits,
/// and taking the label of `<label>.json` gives the same label back: normalising a label
/// again changes nothing.
pub proof fn law_label_ascii_and_stable(path: Seq<char>)
    requires
        text::spec_file_stem(path) matches Some(stem) && text::all_ascii(stem),
    ensures
        spec_extract_label(path) matches Ok(l) ==> (forall|i: int| 0 <= i < l.len() ==> is_label_char(
            #[trigger] l[i],
        )) && spec_extract_label(l + ".json"@) == Ok::<Seq<char>, LabelError>(l),
{
    let stem = text::spec_file_stem(path)->Some_0;
    let b1 = text::spec_trim_end_matches(stem, ".hara.ethnet"@);
    let base = text::spec_trim_end_matches(b1, ".hara"@);
    lemma_trim_end_matches_prefix(stem, ".hara.ethnet"@);
    lemma_trim_end_matches_prefix(b1, ".hara"@);
    assert(text::all_ascii(base)) by {
        assert forall|i: int| 0 <= i < base.len() implies text::is_ascii_char(#[trigger] base[i]) by {
            assert(base[i] == b1[i]);
            assert(b1[i] == stem[i]);
        }
    }
    let lower = text::spec_to_lowercase(base);
    assert(lower == base.map_values(|c: char| text::ascii_lower(c)));
    assert forall|i: int| 0 <= i < lower.len() implies text::is_ascii_char(#[trigger] lower[i]) && !(65
        <= (lower[i] as u32) && (lower[i] as u32) <= 90) by {
        assert(lower[i] == text::ascii_lower(base[i]));
        assert(text::is_ascii_char(base[i]));
    }
    lemma_keep_label_chars(lower);
    let label = spec_keep_alphanumeric(lower);
    if label.len() > 0 {
        let l = label;
        let m = l + ".json"@;
        reveal_strlit(".json");
        reveal_strlit(".");
        reveal_strlit("..");
        reveal_strlit(".hara.ethnet");
        reveal_strlit(".hara");
        assert(m.len() == l.len() + 5);
        assert(m[l.len() as int] == '.');
        assert forall|j: int| 0 <= j < l.len() implies m[j] == l[j] && is_label_char(#[trigger] l[j]) by {}
        // `m` is a single plain component.
        assert(!m.contains('/')) by {
            assert forall|j: int| 0 <= j < m.len() implies m[j] != '/' by {
                if j < l.len() {
                    assert(is_label_char(l[j]));
                }
            }
        }
        assert(!m.contains('\\')) by {
            assert forall|j: int| 0 <= j < m.len() implies m[j] != '\\' by {
                if j < l.len() {
                    assert(is_label_char(l[j]));
                }
            }
        }
        assert(!m.contains(':')) by {
            assert forall|j: int| 0 <= j < m.len() implies m[j] != ':' by {
                if j < l.len() {
                    assert(is_label_char(l[j]));
                }
            }
        }
        assert(m != "."@ && m != ".."@) by {
            assert(m.len() >= 6);
        }
        assert(text::spec_file_name(m) == Some(m));
        // Its stem is the label.
        text::lemma_rfind(m, '.');
        let r = text::spec_rfind(m, '.');
        if r != l.len() {
            if r < l.len() {
                assert(m[l.len() as int] != '.');
            } else {
                assert(m[r] == '.');
            }
        }
        assert(r == l.len());
        assert(m.take(r) =~= l);
        assert(text::spec_file_stem(m) == Some(l));
        // Neither suffix is there, the text is already lowercase and alphanumeric.
        assert(text::spec_trim_end_matches(l, ".hara.ethnet"@) == l) by {
            if 12 <= l.len() {
                let t = l.subrange(l.len() - 12, l.len() as int);
                assert(is_label_char(l[l.len() - 12]));
                assert(t[0] != ".hara.ethnet"@[0]);
            }
        }
        assert(text::spec_trim_end_matches(l, ".hara"@) == l) by {
            if 5 <= l.len() {
                let t = l.subrange(l.len() - 5, l.len() as int);
                assert(is_label_char(l[l.len() - 5]));
                assert(t[0] != ".hara"@[0]);
            }
        }
        assert(text::all_ascii(l));
        let ll = text::spec_to_lowercase(l);
        assert(ll =~= l) by {
            assert forall|j: int| 0 <= j < l.len() implies ll[j] == l[j] by {
                assert(is_label_char(l[j]));
            }
        }
        assert forall|j: int| 0 <= j < l.len() implies text::spec_is_alphanumeric(#[trigger] l[j]) by {
            assert(is_label_char(l[j]));
        }
        lemma_keep_all_alphanumeric(l);
    }
}

} // verus!

verus! {

/// The two files a `.bin` schema's contract address is looked up in, in order: the path
/// with a `.json` extension, and the path with `.abi.bin` replaced by `.json`.
pub fn sidecar_candidates(path: &str) -> (r: (String, String))
    ensures
        r.0@ == text::spec_with_extension(path@, "json"@),
        r.1@ == text::spec_replace(path@, ".abi.bin"@, ".json"@),
{
    proof {
        reveal_strlit(".abi.bin");
        reveal_strlit("json");
        assert("json"@.len() == 4);
    }
    (text::with_extension(path, "json"), text::replace(path, ".abi.bin", ".json"))
}

} // verus!

verus! {

/// The two kinds of schema file that can be registered.
#[derive(Debug, PartialEq, Eq)]
pub enum SchemaKind {
    /// A `.json` schema holding the ABI and the contract address.
    Json,
    /// A `.bin` file of bytecode, with its address in a sidecar JSON file.
    Bin,
}

/// The kind of schema a path names, by its extension (`json` or `bin`, case-sensitive).
pub open spec fn spec_schema_kind(path: Seq<char>) -> Option<SchemaKind> {
    match text::spec_file_name(path) {
        Some(n) => match text::spec_extension_of_name(n) {
            Some(e) => if e == "json"@ {
                Some(SchemaKind::Json)
            } else if e == "bin"@ {
                Some(SchemaKind::Bin)
            } else {
                None
            },
            None => None,
        },
        None => None,
    }
}

/// The kind of schema a path names; other files are passed over.
pub fn schema_kind(path: &str) -> (r: Option<SchemaKind>)
    ensures
        r == spec_schema_kind(path@),
{
    match text::extension(path) {
        Some(e) => if text::str_eq(e.as_str(), "json") {
            Some(SchemaKind::Json)
        } else if text::str_eq(e.as_str(), "bin") {
            Some(SchemaKind::Bin)
        } else {
            None
        },
        None => None,
    }
}

/// The error for a file given to `register` that is neither `.json` nor `.bin`.
pub open spec fn spec_unsupported_file() -> Seq<char> {
    "Unsupported file type. Provide a .json or .bin file."@
}

/// The kind of schema a single file given to `register` is; any other file is refused.
pub fn file_schema_kind(path: &str) -> (r: Result<SchemaKind, String>)
    ensures
        match r {
            Ok(k) => spec_schema_kind(path@) == Some(k),
            Err(m) => spec_schema_kind(path@) is None && m@ == spec_unsupported_file(),
        },
{
    match schema_kind(path) {
        Some(k) => Ok(k),
        None => Err(String::from_str("Unsupported file type. Provide a .json or .bin file.")),
    }
}

} // verus!

verus! {

/// `text` without a leading `0x` or `0X`.
pub open spec fn spec_strip_hex_prefix(text: Seq<char>) -> Seq<char> {
    if text.len() >= 2 && text[0] == '0' && (text[1] == 'x' || text[1] == 'X') {
        text.skip(2)
    } else {
        text
    }
}

/// The 20 bytes of an address written as text: an optional `0x` or `0X`, then exactly 40
/// hexadecimal digits in either case, read in pairs, high digit first.
pub open spec fn spec_parse_address(text: Seq<char>) -> Option<Seq<u8>> {
    let body = spec_strip_hex_prefix(text);
    if body.len() == 40 && forall|i: int| 0 <= i < body.len() ==> hexfile::is_hex_digit(#[trigger] body[i]) {
        Some(hexfile::spec_hex_decode(body))
    } else {
        None
    }
}

/// `alloy::primitives::Address::from_str`, which reads the text with const-hex's
/// `decode_to_array`: an even length, an optional `0x`/`0X` prefix, exactly 40 digits, each
/// a hexadecimal digit. Trusted: it yields the bytes of `spec_parse_address(text@)`.
#[verifier::external_body]
fn parse_address(text: &str) -> (r: Option<[u8; 20]>)
    ensures
        match r {
            Some(a) => spec_parse_address(text@) == Some(a@),
            None => spec_parse_address(text@) is None,
        },
{
    text.parse::<alloy::primitives::Address>().ok().map(|a| a.0 .0)
}

/// The hash of an HNS label, as the registry's `setSubnodeOwner` takes it: the Keccak-256 of
/// its UTF-8 bytes.
pub fn label_hash(label: &str) -> (h: [u8; 32])
    ensures
        h@ == spec_alloy_keccak256(encode_utf8(label@)),
{
    alloy_keccak256(label.as_bytes())
}

/// The message for a contract address that does not read as one, in a `.json` schema or in
/// the sidecar of a `.bin` file.
pub open spec fn spec_bad_address(kind: SchemaKind, raw: Seq<char>) -> Seq<char> {
    match kind {
        SchemaKind::Json => "Invalid contract address in schema: "@ + raw,
        SchemaKind::Bin => "Invalid contract address in sidecar: "@ + raw,
    }
}

/// The contract address given in the schema of a file of this kind.
pub fn schema_address(kind: SchemaKind, raw: &str) -> (r: Result<[u8; 20], String>)
    ensures
        match r {
            Ok(a) => spec_parse_address(raw@) == Some(a@),
            Err(m) => spec_parse_address(raw@) is None && m@ == spec_bad_address(kind, raw@),
        },
{
    match parse_address(raw) {
        Some(a) => Ok(a),
        None => {
            let mut m = match kind {
                SchemaKind::Json => String::from_str("Invalid contract address in schema: "),
                SchemaKind::Bin => String::from_str("Invalid contract address in sidecar: "),
            };
            m.append(raw);
            Err(m)
        },
    }
}

/// The address of the HNS proxy configured as `HARA_HNS_PROXY`.
pub fn proxy_address(raw: &str) -> (r: Result<[u8; 20], String>)
    ensures
        match r {
            Ok(a) => spec_parse_address(raw@) == Some(a@),
            Err(m) => spec_parse_address(raw@) is None && m@ == "Invalid HARA_HNS_PROXY address format"@,
        },
{
    match parse_address(raw) {
        Some(a) => Ok(a),
        None => Err(String::from_str("Invalid HARA_HNS_PROXY address format")),
    }
}

} // verus!
