use vstd::prelude::*;
use crate::names::ContractNames;

verus! {

/// The text of the V2 upgrade of the contract, `src/<Name>V2.sol`.
pub open spec fn spec_render(pascal: Seq<char>) -> Seq<char> {
    "// SPDX-License-Identifier: MIT\npragma solidity ^0.8.29;\n\nimport \"./"@
        + pascal
        + ".sol\";\nimport \"./libraries/"@
        + pascal
        + "V2Storage.sol\";\n\n/// @title "@
        + pascal
        + "V2\n/// @notice Upgrade of "@
        + pascal
        + " — adds V2 state via a separate Diamond Storage slot.\n/// @dev Deploy with `hara uc` then run `script/Upgrade"@
        + pascal
        + ".s.sol` to upgrade the proxy.\ncontract "@
        + pascal
        + "V2 is "@
        + pascal
        + " {\n    using Lib"@
        + pascal
        + "V2Storage for *;\n\n    /// @notice Re-initializer for V2 — called once during the upgrade transaction.\n    /// @param  _newParam Example new parameter introduced in V2.\n    function initializeV2(uint256 _newParam) public reinitializer(2) {\n        Lib"@
        + pascal
        + "V2Storage.s().newParam = _newParam;\n    }\n\n    // ─── V2 functions ──────────────────────────────────────────────────────────\n\n    function getNewParam() external view returns (uint256) {\n        return Lib"@
        + pascal
        + "V2Storage.s().newParam;\n    }\n}\n"@
}

/// Renders the V2 upgrade of the contract, `src/<Name>V2.sol`.
pub fn render(n: &ContractNames) -> (s: String)
    ensures
        s@ == spec_render(n.pascal@),
{
    let mut s = String::from_str("// SPDX-License-Identifier: MIT\npragma solidity ^0.8.29;\n\nimport \"./");
    s.append(n.pascal.as_str());
    s.append(".sol\";\nimport \"./libraries/");
    s.append(n.pascal.as_str());
    s.append("V2Storage.sol\";\n\n/// @title ");
    s.append(n.pascal.as_str());
    s.append("V2\n/// @notice Upgrade of ");
    s.append(n.pascal.as_str());
    s.append(" — adds V2 state via a separate Diamond Storage slot.\n/// @dev Deploy with `hara uc` then run `script/Upgrade");
    s.append(n.pascal.as_str());
    s.append(".s.sol` to upgrade the proxy.\ncontract ");
    s.append(n.pascal.as_str());
    s.append("V2 is ");
    s.append(n.pascal.as_str());
    s.append(" {\n    using Lib");
    s.append(n.pascal.as_str());
    s.append("V2Storage for *;\n\n    /// @notice Re-initializer for V2 — called once during the upgrade transaction.\n    /// @param  _newParam Example new parameter introduced in V2.\n    function initializeV2(uint256 _newParam) public reinitializer(2) {\n        Lib");
    s.append(n.pascal.as_str());
    s.append("V2Storage.s().newParam = _newParam;\n    }\n\n    // ─── V2 functions ──────────────────────────────────────────────────────────\n\n    function getNewParam() external view returns (uint256) {\n        return Lib");
    s.append(n.pascal.as_str());
    s.append("V2Storage.s().newParam;\n    }\n}\n");
    s
}

} // verus!
