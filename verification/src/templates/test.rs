use vstd::prelude::*;
use crate::names::ContractNames;

verus! {

/// The text of the unit test `test/<Name>.t.sol`.
pub open spec fn spec_render(pascal: Seq<char>) -> Seq<char> {
    "// SPDX-License-Identifier: MIT\npragma solidity ^0.8.29;\n\nimport \"forge-std/Test.sol\";\nimport { "@
        + pascal
        + " } from \"../src/"@
        + pascal
        + ".sol\";\nimport { ERC1967Proxy } from \"@openzeppelin/contracts/proxy/ERC1967/ERC1967Proxy.sol\";\n\ncontract "@
        + pascal
        + "Test is Test {\n    "@
        + pascal
        + " public contractInstance;\n    address public owner = address(1);\n\n    function setUp() public {\n        "@
        + pascal
        + " implementation = new "@
        + pascal
        + "();\n        bytes memory data = abi.encodeWithSelector("@
        + pascal
        + ".initialize.selector, owner);\n        ERC1967Proxy proxy = new ERC1967Proxy(address(implementation), data);\n        contractInstance = "@
        + pascal
        + "(address(proxy));\n    }\n\n    function test_Initialization() public {\n        assertEq(contractInstance.owner(), owner);\n    }\n}\n"@
}

/// Renders the unit test `test/<Name>.t.sol`.
pub fn render(n: &ContractNames) -> (s: String)
    ensures
        s@ == spec_render(n.pascal@),
{
    let mut s = String::from_str("// SPDX-License-Identifier: MIT\npragma solidity ^0.8.29;\n\nimport \"forge-std/Test.sol\";\nimport { ");
    s.append(n.pascal.as_str());
    s.append(" } from \"../src/");
    s.append(n.pascal.as_str());
    s.append(".sol\";\nimport { ERC1967Proxy } from \"@openzeppelin/contracts/proxy/ERC1967/ERC1967Proxy.sol\";\n\ncontract ");
    s.append(n.pascal.as_str());
    s.append("Test is Test {\n    ");
    s.append(n.pascal.as_str());
    s.append(" public contractInstance;\n    address public owner = address(1);\n\n    function setUp() public {\n        ");
    s.append(n.pascal.as_str());
    s.append(" implementation = new ");
    s.append(n.pascal.as_str());
    s.append("();\n        bytes memory data = abi.encodeWithSelector(");
    s.append(n.pascal.as_str());
    s.append(".initialize.selector, owner);\n        ERC1967Proxy proxy = new ERC1967Proxy(address(implementation), data);\n        contractInstance = ");
    s.append(n.pascal.as_str());
    s.append("(address(proxy));\n    }\n\n    function test_Initialization() public {\n        assertEq(contractInstance.owner(), owner);\n    }\n}\n");
    s
}

} // verus!
