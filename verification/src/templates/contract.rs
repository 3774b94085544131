use vstd::prelude::*;
use crate::names::ContractNames;

verus! {

/// The text of the V1 upgradeable contract `src/<Name>.sol`.
pub open spec fn spec_render(pascal: Seq<char>) -> Seq<char> {
    "// SPDX-License-Identifier: MIT\npragma solidity ^0.8.29;\n\nimport {Initializable} from \"@openzeppelin-upgradeable/contracts/proxy/utils/Initializable.sol\";\nimport {OwnableUpgradeable} from \"@openzeppelin-upgradeable/contracts/access/OwnableUpgradeable.sol\";\nimport { "@
        + pascal
        + "View} from \"./libraries/"@
        + pascal
        + "View.sol\";\nimport {Lib"@
        + pascal
        + "Storage} from \"./libraries/"@
        + pascal
        + "Storage.sol\";\n\ncontract "@
        + pascal
        + " is Initializable, OwnableUpgradeable, "@
        + pascal
        + "View {\n    using Lib"@
        + pascal
        + "Storage for *;\n\n    function initialize(address adminOwner) public initializer {\n        __Ownable_init(adminOwner);\n        // Additional initialization logic\n    }\n\n    constructor() {\n        _disableInitializers();\n    }\n\n    // Example function using Diamond Storage\n    function exampleAction(uint256 id) public virtual {\n        // Lib"@
        + pascal
        + "Storage.s().idToCounter[id]++;\n    }\n}\n"@
}

/// Renders the V1 upgradeable contract `src/<Name>.sol`.
pub fn render(n: &ContractNames) -> (s: String)
    ensures
        s@ == spec_render(n.pascal@),
{
    let mut s = String::from_str("// SPDX-License-Identifier: MIT\npragma solidity ^0.8.29;\n\nimport {Initializable} from \"@openzeppelin-upgradeable/contracts/proxy/utils/Initializable.sol\";\nimport {OwnableUpgradeable} from \"@openzeppelin-upgradeable/contracts/access/OwnableUpgradeable.sol\";\nimport { ");
    s.append(n.pascal.as_str());
    s.append("View} from \"./libraries/");
    s.append(n.pascal.as_str());
    s.append("View.sol\";\nimport {Lib");
    s.append(n.pascal.as_str());
    s.append("Storage} from \"./libraries/");
    s.append(n.pascal.as_str());
    s.append("Storage.sol\";\n\ncontract ");
    s.append(n.pascal.as_str());
    s.append(" is Initializable, OwnableUpgradeable, ");
    s.append(n.pascal.as_str());
    s.append("View {\n    using Lib");
    s.append(n.pascal.as_str());
    s.append("Storage for *;\n\n    function initialize(address adminOwner) public initializer {\n        __Ownable_init(adminOwner);\n        // Additional initialization logic\n    }\n\n    constructor() {\n        _disableInitializers();\n    }\n\n    // Example function using Diamond Storage\n    function exampleAction(uint256 id) public virtual {\n        // Lib");
    s.append(n.pascal.as_str());
    s.append("Storage.s().idToCounter[id]++;\n    }\n}\n");
    s
}

} // verus!
