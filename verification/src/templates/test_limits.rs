use vstd::prelude::*;
use crate::names::ContractNames;

verus! {

/// The text of the size and gas limit test `test/ContractLimits.t.sol`.
pub open spec fn spec_render(pascal: Seq<char>) -> Seq<char> {
    "// SPDX-License-Identifier: MIT\npragma solidity ^0.8.29;\n\nimport {Test, console} from \"forge-std/Test.sol\";\nimport { "@
        + pascal
        + " } from \"../src/"@
        + pascal
        + ".sol\";\nimport {ERC1967Proxy} from \"@openzeppelin/contracts/proxy/ERC1967/ERC1967Proxy.sol\";\n\n/// @title ContractLimitsTest\n/// @notice CI enforcement suite — all tests here MUST pass on every push / PR.\n/// @dev  EIP-170 hard limit : 24,576 bytes deployed bytecode per contract.\n/// @dev  Gas soft limit     : 300,000 gas per public method call.\ncontract ContractLimitsTest is Test {\n    uint256 constant MAX_CONTRACT_SIZE = 24_576; // EIP-170 hard limit (bytes)\n    uint256 constant MAX_GAS_PER_CALL  = 300_000; // project policy limit (gas units)\n\n    "@
        + pascal
        + "    public impl;\n    "@
        + pascal
        + "    public instance;\n    ERC1967Proxy public proxy;\n\n    address admin = makeAddr(\"admin\");\n\n    function setUp() public {\n        impl = new "@
        + pascal
        + "();\n\n        bytes memory initData = abi.encodeWithSelector("@
        + pascal
        + ".initialize.selector, admin);\n        proxy    = new ERC1967Proxy(address(impl), initData);\n        instance = "@
        + pascal
        + "(address(proxy));\n    }\n\n    // ═══════════════════════════════════════════════════════\n    // CONTRACT SIZE CHECKS  (must be < 24,576 bytes — EIP-170)\n    // ═══════════════════════════════════════════════════════\n\n    function test_size_"@
        + pascal
        + "_implementation() public view {\n        uint256 size = address(impl).code.length;\n        console.log(\"[SIZE] "@
        + pascal
        + " (impl):\", size, \"/ 24576 bytes\");\n        assertLt(size, MAX_CONTRACT_SIZE, _sizeErr(\""@
        + pascal
        + " (impl)\", size));\n    }\n\n    function test_size_ERC1967Proxy() public view {\n        uint256 size = address(proxy).code.length;\n        console.log(\"[SIZE] ERC1967Proxy:\", size, \"/ 24576 bytes\");\n        assertLt(size, MAX_CONTRACT_SIZE, _sizeErr(\"ERC1967Proxy\", size));\n    }\n\n    // ═══════════════════════════════════════════════════════\n    // GAS LIMIT CHECKS  (must be < 300,000 gas per call)\n    // ═══════════════════════════════════════════════════════\n\n    function test_gas_initialize() public {\n        "@
        + pascal
        + " newImpl = new "@
        + pascal
        + "();\n        bytes memory initData = abi.encodeWithSelector("@
        + pascal
        + ".initialize.selector, admin);\n\n        uint256 gasStart = gasleft();\n        new ERC1967Proxy(address(newImpl), initData);\n        uint256 gasUsed = gasStart - gasleft();\n\n        console.log(\"[GAS]  initialize():\", gasUsed, \"/ 300000\");\n        assertLt(gasUsed, MAX_GAS_PER_CALL, _gasErr(\"initialize()\", gasUsed));\n    }\n\n    function test_gas_exampleAction_coldSlot() public {\n        uint256 gasStart = gasleft();\n        instance.exampleAction(1);\n        uint256 gasUsed = gasStart - gasleft();\n\n        console.log(\"[GAS]  exampleAction() [cold slot]:\", gasUsed, \"/ 300000\");\n        assertLt(gasUsed, MAX_GAS_PER_CALL, _gasErr(\"exampleAction() [cold]\", gasUsed));\n    }\n\n    function test_gas_exampleAction_warmSlot() public {\n        instance.exampleAction(1); // warm the slot\n        uint256 gasStart = gasleft();\n        instance.exampleAction(1);\n        uint256 gasUsed = gasStart - gasleft();\n\n        console.log(\"[GAS]  exampleAction() [warm slot]:\", gasUsed, \"/ 300000\");\n        assertLt(gasUsed, MAX_GAS_PER_CALL, _gasErr(\"exampleAction() [warm]\", gasUsed));\n    }\n\n    // ─────────────────────────────────────────────────────────\n    // Internal helpers\n    // ─────────────────────────────────────────────────────────\n    function _sizeErr(string memory name, uint256 size) internal pure returns (string memory) {\n        return string.concat(\n            name, \" exceeds 24 KB EVM limit: \", vm.toString(size), \" bytes (max 24576)\"\n        );\n    }\n\n    function _gasErr(string memory name, uint256 gas) internal pure returns (string memory) {\n        return string.concat(\n            name, \" exceeds 300K gas policy: \", vm.toString(gas), \" gas (max 300000)\"\n        );\n    }\n}\n"@
}

/// Renders the size and gas limit test `test/ContractLimits.t.sol`.
pub fn render(n: &ContractNames) -> (s: String)
    ensures
        s@ == spec_render(n.pascal@),
{
    let mut s = String::from_str("// SPDX-License-Identifier: MIT\npragma solidity ^0.8.29;\n\nimport {Test, console} from \"forge-std/Test.sol\";\nimport { ");
    s.append(n.pascal.as_str());
    s.append(" } from \"../src/");
    s.append(n.pascal.as_str());
    s.append(".sol\";\nimport {ERC1967Proxy} from \"@openzeppelin/contracts/proxy/ERC1967/ERC1967Proxy.sol\";\n\n/// @title ContractLimitsTest\n/// @notice CI enforcement suite — all tests here MUST pass on every push / PR.\n/// @dev  EIP-170 hard limit : 24,576 bytes deployed bytecode per contract.\n/// @dev  Gas soft limit     : 300,000 gas per public method call.\ncontract ContractLimitsTest is Test {\n    uint256 constant MAX_CONTRACT_SIZE = 24_576; // EIP-170 hard limit (bytes)\n    uint256 constant MAX_GAS_PER_CALL  = 300_000; // project policy limit (gas units)\n\n    ");
    s.append(n.pascal.as_str());
    s.append("    public impl;\n    ");
    s.append(n.pascal.as_str());
    s.append("    public instance;\n    ERC1967Proxy public proxy;\n\n    address admin = makeAddr(\"admin\");\n\n    function setUp() public {\n        impl = new ");
    s.append(n.pascal.as_str());
    s.append("();\n\n        bytes memory initData = abi.encodeWithSelector(");
    s.append(n.pascal.as_str());
    s.append(".initialize.selector, admin);\n        proxy    = new ERC1967Proxy(address(impl), initData);\n        instance = ");
    s.append(n.pascal.as_str());
    s.append("(address(proxy));\n    }\n\n    // ═══════════════════════════════════════════════════════\n    // CONTRACT SIZE CHECKS  (must be < 24,576 bytes — EIP-170)\n    // ═══════════════════════════════════════════════════════\n\n    function test_size_");
    s.append(n.pascal.as_str());
    s.append("_implementation() public view {\n        uint256 size = address(impl).code.length;\n        console.log(\"[SIZE] ");
    s.append(n.pascal.as_str());
    s.append(" (impl):\", size, \"/ 24576 bytes\");\n        assertLt(size, MAX_CONTRACT_SIZE, _sizeErr(\"");
    s.append(n.pascal.as_str());
    s.append(" (impl)\", size));\n    }\n\n    function test_size_ERC1967Proxy() public view {\n        uint256 size = address(proxy).code.length;\n        console.log(\"[SIZE] ERC1967Proxy:\", size, \"/ 24576 bytes\");\n        assertLt(size, MAX_CONTRACT_SIZE, _sizeErr(\"ERC1967Proxy\", size));\n    }\n\n    // ═══════════════════════════════════════════════════════\n    // GAS LIMIT CHECKS  (must be < 300,000 gas per call)\n    // ═══════════════════════════════════════════════════════\n\n    function test_gas_initialize() public {\n        ");
    s.append(n.pascal.as_str());
    s.append(" newImpl = new ");
    s.append(n.pascal.as_str());
    s.append("();\n        bytes memory initData = abi.encodeWithSelector(");
    s.append(n.pascal.as_str());
    s.append(".initialize.selector, admin);\n\n        uint256 gasStart = gasleft();\n        new ERC1967Proxy(address(newImpl), initData);\n        uint256 gasUsed = gasStart - gasleft();\n\n        console.log(\"[GAS]  initialize():\", gasUsed, \"/ 300000\");\n        assertLt(gasUsed, MAX_GAS_PER_CALL, _gasErr(\"initialize()\", gasUsed));\n    }\n\n    function test_gas_exampleAction_coldSlot() public {\n        uint256 gasStart = gasleft();\n        instance.exampleAction(1);\n        uint256 gasUsed = gasStart - gasleft();\n\n        console.log(\"[GAS]  exampleAction() [cold slot]:\", gasUsed, \"/ 300000\");\n        assertLt(gasUsed, MAX_GAS_PER_CALL, _gasErr(\"exampleAction() [cold]\", gasUsed));\n    }\n\n    function test_gas_exampleAction_warmSlot() public {\n        instance.exampleAction(1); // warm the slot\n        uint256 gasStart = gasleft();\n        instance.exampleAction(1);\n        uint256 gasUsed = gasStart - gasleft();\n\n        console.log(\"[GAS]  exampleAction() [warm slot]:\", gasUsed, \"/ 300000\");\n        assertLt(gasUsed, MAX_GAS_PER_CALL, _gasErr(\"exampleAction() [warm]\", gasUsed));\n    }\n\n    // ─────────────────────────────────────────────────────────\n    // Internal helpers\n    // ─────────────────────────────────────────────────────────\n    function _sizeErr(string memory name, uint256 size) internal pure returns (string memory) {\n        return string.concat(\n            name, \" exceeds 24 KB EVM limit: \", vm.toString(size), \" bytes (max 24576)\"\n        );\n    }\n\n    function _gasErr(string memory name, uint256 gas) internal pure returns (string memory) {\n        return string.concat(\n            name, \" exceeds 300K gas policy: \", vm.toString(gas), \" gas (max 300000)\"\n        );\n    }\n}\n");
    s
}

} // verus!
