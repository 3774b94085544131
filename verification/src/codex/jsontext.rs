use vstd::prelude::*;
use serde_json::Value;

verus! {

/// The root of a JSON document, as far as the ABI reader tells roots apart.
#[derive(Debug)]
pub enum JsonRoot {
    /// An array.
    Array,
    /// An object, with its keys.
    Object(Vec<String>),
    /// A string, number, boolean or null.
    Scalar,
}

/// The value of a [`JsonRoot`].
pub enum JsonRootSpec {
    Array,
    Object(Seq<Seq<char>>),
    Scalar,
}

impl View for JsonRoot {
    type V = JsonRootSpec;

    open spec fn view(&self) -> JsonRootSpec {
        match self {
            JsonRoot::Array => JsonRootSpec::Array,
            JsonRoot::Object(keys) => JsonRootSpec::Object(keys@.map_values(|k: String| k@)),
            JsonRoot::Scalar => JsonRootSpec::Scalar,
        }
    }
}

/// What serde_json's `from_str::<Value>` makes of `text`: the kind of the document's root
/// (with an object's keys), or the message of its error.
pub uninterp spec fn spec_json_root(text: Seq<char>) -> Result<JsonRootSpec, Seq<char>>;

/// Whether serde_json parses `text` as a JSON document.
pub open spec fn spec_is_json(text: Seq<char>) -> bool {
    spec_json_root(text) is Ok
}

/// `serde_json::from_str::<Value>`, with the root told apart by its variant and an error
/// turned into its message. Trusted: the result is named `spec_json_root(text@)`.
#[verifier::external_body]
pub(crate) fn json_root(text: &str) -> (r: Result<JsonRoot, String>)
    ensures
        match r {
            Ok(root) => spec_json_root(text@) == Ok::<JsonRootSpec, Seq<char>>(root@),
            Err(m) => spec_json_root(text@) == Err::<JsonRootSpec, Seq<char>>(m@),
        },
{
    match serde_json::from_str::<Value>(text) {
        Ok(Value::Array(_)) => Ok(JsonRoot::Array),
        Ok(Value::Object(map)) => Ok(JsonRoot::Object(map.keys().cloned().collect())),
        Ok(_) => Ok(JsonRoot::Scalar),
        Err(e) => Err(e.to_string()),
    }
}

/// The text that serde_json's `to_string_pretty` makes of the document parsed from `text`.
pub uninterp spec fn spec_pretty_json(text: Seq<char>) -> Seq<char>;

/// `serde_json::from_str::<Value>`, then `to_string_pretty` of the document. Trusted: it
/// yields text exactly where `text` parses (a parsed `Value` always serialises, its map keys
/// being strings), and that text is named `spec_pretty_json(text@)`.
#[verifier::external_body]
pub(crate) fn pretty_json_text(text: &str) -> (r: Option<String>)
    ensures
        r is Some <==> spec_is_json(text@),
        r matches Some(s) ==> s@ == spec_pretty_json(text@),
{
    serde_json::from_str::<Value>(text).ok().and_then(|v| serde_json::to_string_pretty(&v).ok())
}

} // verus!
