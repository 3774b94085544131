use vstd::prelude::*;

verus! {

/// The text of the shared `src/libraries/Errors.sol`: custom errors used across contracts.
pub open spec fn spec_render() -> Seq<char> {
    "// SPDX-License-Identifier: UNLICENSED\npragma solidity ^0.8.29;\n\n/// Custom errors shared by the contracts of this project.\nerror Unauthorized(address caller);\nerror InvalidId(uint256 id);\n"@
}

/// Renders the shared `src/libraries/Errors.sol`: custom errors used across contracts.
pub fn render() -> (s: String)
    ensures
        s@ == spec_render(),
{
    String::from_str("// SPDX-License-Identifier: UNLICENSED\npragma solidity ^0.8.29;\n\n/// Custom errors shared by the contracts of this project.\nerror Unauthorized(address caller);\nerror InvalidId(uint256 id);\n")
}

} // verus!
