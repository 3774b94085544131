use vstd::prelude::*;
use crate::names::ContractNames;

verus! {

/// The text of the upgrade script `script/Upgrade<Name>.s.sol`.
pub open spec fn spec_render(pascal: Seq<char>) -> Seq<char> {
    "// SPDX-License-Identifier: MIT\npragma solidity ^0.8.29;\n\nimport \"forge-std/Script.sol\";\nimport \"@openzeppelin/contracts/proxy/ERC1967/ERC1967Proxy.sol\";\nimport \"../src/"@
        + pascal
        + "V2.sol\";\n\n/// @title Upgrade"@
        + pascal
        + "Script\n/// @notice Upgrades an existing ERC-1967 proxy to "@
        + pascal
        + "V2 and calls initializeV2.\n///\n/// Usage:\n///   forge script script/Upgrade"@
        + pascal
        + ".s.sol \\\n///     --rpc-url $RPC_URL \\\n///     --broadcast \\\n///     -vvvv\n///\n/// Environment variables required:\n///   PRIVATE_KEY  — deployer private key\n///   PROXY_ADDR   — address of the existing ERC-1967 proxy\ncontract Upgrade"@
        + pascal
        + "Script is Script {\n    function run() external {\n        uint256 deployerPrivateKey = vm.envUint(\"PRIVATE_KEY\");\n        address proxyAddr          = vm.envAddress(\"PROXY_ADDR\");\n\n        vm.startBroadcast(deployerPrivateKey);\n\n        // 1. Deploy the new implementation\n        "@
        + pascal
        + "V2 newImpl = new "@
        + pascal
        + "V2();\n\n        // 2. Encode the V2 initializer call\n        bytes memory initData = abi.encodeWithSelector(\n            "@
        + pascal
        + "V2.initializeV2.selector,\n            0   // <-- replace with your actual _newParam value\n        );\n\n        // 3. Upgrade the proxy to V2 and call initializeV2 atomically\n        "@
        + pascal
        + "V2(payable(proxyAddr)).upgradeToAndCall(\n            address(newImpl),\n            initData\n        );\n\n        vm.stopBroadcast();\n    }\n}\n"@
}

/// Renders the upgrade script `script/Upgrade<Name>.s.sol`.
pub fn render(n: &ContractNames) -> (s: String)
    ensures
        s@ == spec_render(n.pascal@),
{
    let mut s = String::from_str("// SPDX-License-Identifier: MIT\npragma solidity ^0.8.29;\n\nimport \"forge-std/Script.sol\";\nimport \"@openzeppelin/contracts/proxy/ERC1967/ERC1967Proxy.sol\";\nimport \"../src/");
    s.append(n.pascal.as_str());
    s.append("V2.sol\";\n\n/// @title Upgrade");
    s.append(n.pascal.as_str());
    s.append("Script\n/// @notice Upgrades an existing ERC-1967 proxy to ");
    s.append(n.pascal.as_str());
    s.append("V2 and calls initializeV2.\n///\n/// Usage:\n///   forge script script/Upgrade");
    s.append(n.pascal.as_str());
    s.append(".s.sol \\\n///     --rpc-url $RPC_URL \\\n///     --broadcast \\\n///     -vvvv\n///\n/// Environment variables required:\n///   PRIVATE_KEY  — deployer private key\n///   PROXY_ADDR   — address of the existing ERC-1967 proxy\ncontract Upgrade");
    s.append(n.pascal.as_str());
    s.append("Script is Script {\n    function run() external {\n        uint256 deployerPrivateKey = vm.envUint(\"PRIVATE_KEY\");\n        address proxyAddr          = vm.envAddress(\"PROXY_ADDR\");\n\n        vm.startBroadcast(deployerPrivateKey);\n\n        // 1. Deploy the new implementation\n        ");
    s.append(n.pascal.as_str());
    s.append("V2 newImpl = new ");
    s.append(n.pascal.as_str());
    s.append("V2();\n\n        // 2. Encode the V2 initializer call\n        bytes memory initData = abi.encodeWithSelector(\n            ");
    s.append(n.pascal.as_str());
    s.append("V2.initializeV2.selector,\n            0   // <-- replace with your actual _newParam value\n        );\n\n        // 3. Upgrade the proxy to V2 and call initializeV2 atomically\n        ");
    s.append(n.pascal.as_str());
    s.append("V2(payable(proxyAddr)).upgradeToAndCall(\n            address(newImpl),\n            initData\n        );\n\n        vm.stopBroadcast();\n    }\n}\n");
    s
}

} // verus!
