use vstd::prelude::*;
use crate::names::ContractNames;

verus! {

/// The text of the view library `src/libraries/<Name>View.sol`.
pub open spec fn spec_render(pascal: Seq<char>) -> Seq<char> {
    "// SPDX-License-Identifier: UNLICENSED\npragma solidity ^0.8.29;\n\nimport {Lib"@
        + pascal
        + "Storage} from \"./"@
        + pascal
        + "Storage.sol\";\n\nabstract contract "@
        + pascal
        + "View {\n    using Lib"@
        + pascal
        + "Storage for *;\n\n    // Add view functions here\n    // function getSomething(uint256 id) external view returns(uint256) {\n    //     return Lib"@
        + pascal
        + "Storage.s().someField[id];\n    // }\n}\n"@
}

/// Renders the view library `src/libraries/<Name>View.sol`.
pub fn render(n: &ContractNames) -> (s: String)
    ensures
        s@ == spec_render(n.pascal@),
{
    let mut s = String::from_str("// SPDX-License-Identifier: UNLICENSED\npragma solidity ^0.8.29;\n\nimport {Lib");
    s.append(n.pascal.as_str());
    s.append("Storage} from \"./");
    s.append(n.pascal.as_str());
    s.append("Storage.sol\";\n\nabstract contract ");
    s.append(n.pascal.as_str());
    s.append("View {\n    using Lib");
    s.append(n.pascal.as_str());
    s.append("Storage for *;\n\n    // Add view functions here\n    // function getSomething(uint256 id) external view returns(uint256) {\n    //     return Lib");
    s.append(n.pascal.as_str());
    s.append("Storage.s().someField[id];\n    // }\n}\n");
    s
}

} // verus!
