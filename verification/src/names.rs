use vstd::prelude::*;
use heck::{ToLowerCamelCase, ToPascalCase};
use crate::text;

verus! {

/// What heck's `ToPascalCase::to_pascal_case` makes of `s`.
pub uninterp spec fn spec_pascal_case(s: Seq<char>) -> Seq<char>;

/// What heck's `ToLowerCamelCase::to_lower_camel_case` makes of `s`.
pub uninterp spec fn spec_lower_camel_case(s: Seq<char>) -> Seq<char>;

/// heck's `to_pascal_case` on a string slice. Trusted: its result is named
/// `spec_pascal_case(s@)`; heck's word-splitting rules are not stated.
#[verifier::external_body]
fn pascal_case(s: &str) -> (res: String)
    ensures
        res@ == spec_pascal_case(s@),
{
    s.to_pascal_case()
}

/// heck's `to_lower_camel_case` on a string slice. Trusted: its result is named
/// `spec_lower_camel_case(s@)`; heck's word-splitting rules are not stated.
#[verifier::external_body]
fn lower_camel_case(s: &str) -> (res: String)
    ensures
        res@ == spec_lower_camel_case(s@),
{
    s.to_lower_camel_case()
}

/// The spellings of a contract name that the templates use.
#[derive(Debug)]
pub struct ContractNames {
    /// PascalCase, e.g. `SimpleContract`
    pub pascal: String,
    /// camelCase, e.g. `simpleContract`
    pub camel: String,
    /// all-lowercase, e.g. `simplecontract`
    pub lower: String,
}

impl ContractNames {
    /// The three spellings of a raw contract name.
    pub fn from_raw(raw: &str) -> (n: Self)
        ensures
            n.pascal@ == spec_pascal_case(raw@),
            n.camel@ == spec_lower_camel_case(raw@),
            n.lower@ == text::spec_to_lowercase(raw@),
    {
        ContractNames {
            pascal: pascal_case(raw),
            camel: lower_camel_case(raw),
            lower: text::to_lowercase(raw),
        }
    }
}

} // verus!
