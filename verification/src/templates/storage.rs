use vstd::prelude::*;
use crate::names::ContractNames;

verus! {

/// The text of the V1 Diamond Storage library `src/libraries/<Name>Storage.sol`.
pub open spec fn spec_render(pascal: Seq<char>, camel: Seq<char>, lower: Seq<char>) -> Seq<char> {
    "// SPDX-License-Identifier: MIT\npragma solidity ^0.8.29;\n\nimport {ModularStorage} from \"./Structs.sol\";\n\nlibrary Lib"@
        + pascal
        + "Storage {\n    bytes32 internal constant "@
        + camel
        + "Point = keccak256(\""@
        + lower
        + ".storage\");\n\n    function s() internal pure returns(ModularStorage storage $) {\n        bytes32 slot = "@
        + camel
        + "Point;\n        assembly {\n            $.slot := slot\n        }\n    }\n}\n"@
}

/// Renders the V1 Diamond Storage library `src/libraries/<Name>Storage.sol`.
pub fn render(n: &ContractNames) -> (s: String)
    ensures
        s@ == spec_render(n.pascal@, n.camel@, n.lower@),
{
    let mut s = String::from_str("// SPDX-License-Identifier: MIT\npragma solidity ^0.8.29;\n\nimport {ModularStorage} from \"./Structs.sol\";\n\nlibrary Lib");
    s.append(n.pascal.as_str());
    s.append("Storage {\n    bytes32 internal constant ");
    s.append(n.camel.as_str());
    s.append("Point = keccak256(\"");
    s.append(n.lower.as_str());
    s.append(".storage\");\n\n    function s() internal pure returns(ModularStorage storage $) {\n        bytes32 slot = ");
    s.append(n.camel.as_str());
    s.append("Point;\n        assembly {\n            $.slot := slot\n        }\n    }\n}\n");
    s
}

} // verus!
