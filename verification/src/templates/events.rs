use vstd::prelude::*;

verus! {

/// The text of the shared `src/libraries/Events.sol`: events used across contracts.
pub open spec fn spec_render() -> Seq<char> {
    "// SPDX-License-Identifier: UNLICENSED\npragma solidity ^0.8.29;\n\n/// Events shared by the contracts of this project.\nevent CounterIncremented(uint256 indexed id, uint256 newValue);\n"@
}

/// Renders the shared `src/libraries/Events.sol`: events used across contracts.
pub fn render() -> (s: String)
    ensures
        s@ == spec_render(),
{
    String::from_str("// SPDX-License-Identifier: UNLICENSED\npragma solidity ^0.8.29;\n\n/// Events shared by the contracts of this project.\nevent CounterIncremented(uint256 indexed id, uint256 newValue);\n")
}

} // verus!
