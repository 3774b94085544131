use vstd::prelude::*;

verus! {

/// The text of the shared `src/libraries/Structs.sol`.
pub open spec fn spec_render() -> Seq<char> {
    "// SPDX-License-Identifier: UNLICENSED\npragma solidity ^0.8.29;\n\nstruct ModularStorage {\n    mapping(uint256 => uint256) idToCounter;\n}\n"@
}

/// Renders the shared `src/libraries/Structs.sol`.
pub fn render() -> (s: String)
    ensures
        s@ == spec_render(),
{
    let s = String::from_str("// SPDX-License-Identifier: UNLICENSED\npragma solidity ^0.8.29;\n\nstruct ModularStorage {\n    mapping(uint256 => uint256) idToCounter;\n}\n");
    s
}

} // verus!
