use vstd::prelude::*;
use crate::names::ContractNames;

verus! {

/// The text of the deploy script `script/Deploy<Name>.s.sol`: the implementation behind an
/// ERC-1967 proxy, initialised with the deployer as owner.
pub open spec fn spec_render(pascal: Seq<char>) -> Seq<char> {
    "// SPDX-License-Identifier: MIT\npragma solidity ^0.8.29;\n\nimport \"forge-std/Script.sol\";\nimport \"@openzeppelin/contracts/proxy/ERC1967/ERC1967Proxy.sol\";\nimport \"../src/"@
        + pascal
        + ".sol\";\n\n/// @title Deploy"@
        + pascal
        + "Script\n/// @notice Deploys "@
        + pascal
        + " behind an ERC-1967 proxy and calls initialize.\n///\n/// Usage:\n///   forge script script/Deploy"@
        + pascal
        + ".s.sol \\\n///     --rpc-url $RPC_URL \\\n///     --broadcast \\\n///     -vvvv\n///\n/// Environment variables required:\n///   PRIVATE_KEY  — deployer private key (the deployer becomes the owner)\ncontract Deploy"@
        + pascal
        + "Script is Script {\n    function run() external {\n        uint256 deployerPrivateKey = vm.envUint(\"PRIVATE_KEY\");\n        address deployer           = vm.addr(deployerPrivateKey);\n\n        vm.startBroadcast(deployerPrivateKey);\n\n        // 1. Deploy the implementation\n        "@
        + pascal
        + " impl = new "@
        + pascal
        + "();\n\n        // 2. Deploy the proxy and call initialize atomically\n        ERC1967Proxy proxy = new ERC1967Proxy(\n            address(impl),\n            abi.encodeWithSelector("@
        + pascal
        + ".initialize.selector, deployer)\n        );\n\n        console.log(\""@
        + pascal
        + " proxy:\", address(proxy));\n        console.log(\""@
        + pascal
        + " implementation:\", address(impl));\n\n        vm.stopBroadcast();\n    }\n}\n"@
}

/// Renders the deploy script `script/Deploy<Name>.s.sol`.
pub fn render(n: &ContractNames) -> (s: String)
    ensures
        s@ == spec_render(n.pascal@),
{
    let mut s = String::from_str("// SPDX-License-Identifier: MIT\npragma solidity ^0.8.29;\n\nimport \"forge-std/Script.sol\";\nimport \"@openzeppelin/contracts/proxy/ERC1967/ERC1967Proxy.sol\";\nimport \"../src/");
    s.append(n.pascal.as_str());
    s.append(".sol\";\n\n/// @title Deploy");
    s.append(n.pascal.as_str());
    s.append("Script\n/// @notice Deploys ");
    s.append(n.pascal.as_str());
    s.append(" behind an ERC-1967 proxy and calls initialize.\n///\n/// Usage:\n///   forge script script/Deploy");
    s.append(n.pascal.as_str());
    s.append(".s.sol \\\n///     --rpc-url $RPC_URL \\\n///     --broadcast \\\n///     -vvvv\n///\n/// Environment variables required:\n///   PRIVATE_KEY  — deployer private key (the deployer becomes the owner)\ncontract Deploy");
    s.append(n.pascal.as_str());
    s.append("Script is Script {\n    function run() external {\n        uint256 deployerPrivateKey = vm.envUint(\"PRIVATE_KEY\");\n        address deployer           = vm.addr(deployerPrivateKey);\n\n        vm.startBroadcast(deployerPrivateKey);\n\n        // 1. Deploy the implementation\n        ");
    s.append(n.pascal.as_str());
    s.append(" impl = new ");
    s.append(n.pascal.as_str());
    s.append("();\n\n        // 2. Deploy the proxy and call initialize atomically\n        ERC1967Proxy proxy = new ERC1967Proxy(\n            address(impl),\n            abi.encodeWithSelector(");
    s.append(n.pascal.as_str());
    s.append(".initialize.selector, deployer)\n        );\n\n        console.log(\"");
    s.append(n.pascal.as_str());
    s.append(" proxy:\", address(proxy));\n        console.log(\"");
    s.append(n.pascal.as_str());
    s.append(" implementation:\", address(impl));\n\n        vm.stopBroadcast();\n    }\n}\n");
    s
}

} // verus!
