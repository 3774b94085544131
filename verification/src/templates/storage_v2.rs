use vstd::prelude::*;
use crate::names::ContractNames;

verus! {

/// The text of the V2 Diamond Storage library `src/libraries/<Name>V2Storage.sol`, on a slot of its own.
pub open spec fn spec_render(pascal: Seq<char>, camel: Seq<char>, lower: Seq<char>) -> Seq<char> {
    "// SPDX-License-Identifier: MIT\npragma solidity ^0.8.29;\n\n/// @notice V2 storage struct — add new fields here, never touch V1 Structs.sol.\nstruct ModularStorageV2 {\n    uint256 newParam;\n    // Add more V2 fields below\n}\n\nlibrary Lib"@
        + pascal
        + "V2Storage {\n    bytes32 internal constant "@
        + camel
        + "V2Point = keccak256(\""@
        + lower
        + ".storage.v2\");\n\n    function s() internal pure returns (ModularStorageV2 storage $) {\n        bytes32 slot = "@
        + camel
        + "V2Point;\n        assembly {\n            $.slot := slot\n        }\n    }\n}\n"@
}

/// Renders the V2 Diamond Storage library `src/libraries/<Name>V2Storage.sol`, on a slot of its own.
pub fn render(n: &ContractNames) -> (s: String)
    ensures
        s@ == spec_render(n.pascal@, n.camel@, n.lower@),
{
    let mut s = String::from_str("// SPDX-License-Identifier: MIT\npragma solidity ^0.8.29;\n\n/// @notice V2 storage struct — add new fields here, never touch V1 Structs.sol.\nstruct ModularStorageV2 {\n    uint256 newParam;\n    // Add more V2 fields below\n}\n\nlibrary Lib");
    s.append(n.pascal.as_str());
    s.append("V2Storage {\n    bytes32 internal constant ");
    s.append(n.camel.as_str());
    s.append("V2Point = keccak256(\"");
    s.append(n.lower.as_str());
    s.append(".storage.v2\");\n\n    function s() internal pure returns (ModularStorageV2 storage $) {\n        bytes32 slot = ");
    s.append(n.camel.as_str());
    s.append("V2Point;\n        assembly {\n            $.slot := slot\n        }\n    }\n}\n");
    s
}

} // verus!
