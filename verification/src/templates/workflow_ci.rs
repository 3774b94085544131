use vstd::prelude::*;
use crate::names::ContractNames;

verus! {

/// The text of the CI workflow `.github/workflows/contract-limits.yml`.
pub open spec fn spec_render(pascal: Seq<char>) -> Seq<char> {
    "name: Contract Limits (Size & Gas)\n\non:\n  push:\n  pull_request:\n  workflow_dispatch:\n\njobs:\n  contract-limits:\n    name: Size < 24 KB · Gas < 300K\n    runs-on: ubuntu-latest\n\n    steps:\n      - name: Checkout repository\n        uses: actions/checkout@v4\n        with:\n          submodules: recursive\n\n      - name: Install Foundry\n        uses: foundry-rs/foundry-toolchain@v1\n\n      - name: Show Forge version\n        run: forge --version\n\n      - name: Build contracts\n        run: forge build --silent\n\n      - name: Check contract sizes (< 24,576 bytes — EIP-170)\n        run: |\n          echo \"──────────────────────────────────────────────────────\"\n          echo \"📏 Contract size report\"\n          echo \"──────────────────────────────────────────────────────\"\n\n          SIZE_OUTPUT=$(forge build --sizes 2>&1)\n          echo \"$SIZE_OUTPUT\"\n\n          if echo \"$SIZE_OUTPUT\" | grep -qE '\\|\\s*-[0-9]'; then\n            echo \"\"\n            echo \"::error::One or more contracts exceed the 24 KB EVM size limit (EIP-170).\"\n            exit 1\n          fi\n\n          echo \"\"\n          echo \"✅ All contracts are within the 24 KB EVM limit.\"\n\n      - name: Run ContractLimitsTest ("@
        + pascal
        + ")\n        run: |\n          echo \"──────────────────────────────────────────────────────\"\n          echo \"⛽ Size & Gas suite — ContractLimitsTest\"\n          echo \"──────────────────────────────────────────────────────\"\n          forge test --match-contract \"ContractLimitsTest\" -vvv\n\n      - name: Run full test suite\n        run: |\n          echo \"──────────────────────────────────────────────────────\"\n          echo \"🧪 Full test suite\"\n          echo \"──────────────────────────────────────────────────────\"\n          forge test -vvv\n\n      - name: Generate gas snapshot\n        run: forge snapshot --snap .gas-snapshot\n\n      - name: Upload gas snapshot\n        uses: actions/upload-artifact@v4\n        with:\n          name: gas-snapshot-"@
        + pascal
        + "\n          path: .gas-snapshot\n          retention-days: 30\n"@
}

/// Renders the CI workflow `.github/workflows/contract-limits.yml`.
pub fn render(n: &ContractNames) -> (s: String)
    ensures
        s@ == spec_render(n.pascal@),
{
    let mut s = String::from_str("name: Contract Limits (Size & Gas)\n\non:\n  push:\n  pull_request:\n  workflow_dispatch:\n\njobs:\n  contract-limits:\n    name: Size < 24 KB · Gas < 300K\n    runs-on: ubuntu-latest\n\n    steps:\n      - name: Checkout repository\n        uses: actions/checkout@v4\n        with:\n          submodules: recursive\n\n      - name: Install Foundry\n        uses: foundry-rs/foundry-toolchain@v1\n\n      - name: Show Forge version\n        run: forge --version\n\n      - name: Build contracts\n        run: forge build --silent\n\n      - name: Check contract sizes (< 24,576 bytes — EIP-170)\n        run: |\n          echo \"──────────────────────────────────────────────────────\"\n          echo \"📏 Contract size report\"\n          echo \"──────────────────────────────────────────────────────\"\n\n          SIZE_OUTPUT=$(forge build --sizes 2>&1)\n          echo \"$SIZE_OUTPUT\"\n\n          if echo \"$SIZE_OUTPUT\" | grep -qE '\\|\\s*-[0-9]'; then\n            echo \"\"\n            echo \"::error::One or more contracts exceed the 24 KB EVM size limit (EIP-170).\"\n            exit 1\n          fi\n\n          echo \"\"\n          echo \"✅ All contracts are within the 24 KB EVM limit.\"\n\n      - name: Run ContractLimitsTest (");
    s.append(n.pascal.as_str());
    s.append(")\n        run: |\n          echo \"──────────────────────────────────────────────────────\"\n          echo \"⛽ Size & Gas suite — ContractLimitsTest\"\n          echo \"──────────────────────────────────────────────────────\"\n          forge test --match-contract \"ContractLimitsTest\" -vvv\n\n      - name: Run full test suite\n        run: |\n          echo \"──────────────────────────────────────────────────────\"\n          echo \"🧪 Full test suite\"\n          echo \"──────────────────────────────────────────────────────\"\n          forge test -vvv\n\n      - name: Generate gas snapshot\n        run: forge snapshot --snap .gas-snapshot\n\n      - name: Upload gas snapshot\n        uses: actions/upload-artifact@v4\n        with:\n          name: gas-snapshot-");
    s.append(n.pascal.as_str());
    s.append("\n          path: .gas-snapshot\n          retention-days: 30\n");
    s
}

} // verus!
