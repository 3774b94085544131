use vstd::prelude::*;

verus! {

/// The text of `foundry.toml`: the HARA profile, RPC endpoint and CI profile.
pub open spec fn spec_foundry_toml() -> Seq<char> {
    "[profile.default]\nevm_version = \"paris\"\nsrc = \"src\"\nout = \"out\"\nlibs = [\"lib\"]\nsolc_version = \"0.8.29\"\noptimizer = true\noptimizer_runs = 200\n\n# Script permissions (recommended)\nfs_permissions = [\n    { access = \"read\", path = \".\" }\n]\n\n[rpc_endpoints]\nhara = \"${HARA_RPC}\"\n\n[profile.ci]\nfuzz.runs   = 512\ngas_reports = [\"*\"]\n"@
}

/// The text of `foundry.toml`: the HARA profile, RPC endpoint and CI profile.
pub fn foundry_toml() -> (s: &'static str)
    ensures
        s@ == spec_foundry_toml(),
{
    "[profile.default]\nevm_version = \"paris\"\nsrc = \"src\"\nout = \"out\"\nlibs = [\"lib\"]\nsolc_version = \"0.8.29\"\noptimizer = true\noptimizer_runs = 200\n\n# Script permissions (recommended)\nfs_permissions = [\n    { access = \"read\", path = \".\" }\n]\n\n[rpc_endpoints]\nhara = \"${HARA_RPC}\"\n\n[profile.ci]\nfuzz.runs   = 512\ngas_reports = [\"*\"]\n"
}

/// The text of `remappings.txt`: the import remappings of the installed libraries.
pub open spec fn spec_remappings() -> Seq<char> {
    "@openzeppelin/=lib/openzeppelin-contracts/\n@openzeppelin-upgradeable/=lib/openzeppelin-contracts-upgradeable/\n@forge-std/=lib/forge-std/\nforge-std/=lib/forge-std/src/\nds-test/=lib/forge-std/lib/ds-test/src/\n"@
}

/// The text of `remappings.txt`: the import remappings of the installed libraries.
pub fn remappings() -> (s: &'static str)
    ensures
        s@ == spec_remappings(),
{
    "@openzeppelin/=lib/openzeppelin-contracts/\n@openzeppelin-upgradeable/=lib/openzeppelin-contracts-upgradeable/\n@forge-std/=lib/forge-std/\nforge-std/=lib/forge-std/src/\nds-test/=lib/forge-std/lib/ds-test/src/\n"
}

/// The text of `.env`: the deployment settings, with placeholders.
pub open spec fn spec_dot_env() -> Seq<char> {
    "# Private key for deployment (without 0x prefix)\nHARA_PK=your_private_key_here\n\n# HARA RPC URL\nHARA_RPC=http://20.198.228.24:5625\n\n# HARA HNS Proxy address\nHARA_HNS_PROXY=0x0000000000000000000000000000000000000000\n\n# Optional: Gas configuration\nGAS_LIMIT=30000000\nGAS_PRICE=0\n"@
}

/// The text of `.env`: the deployment settings, with placeholders.
pub fn dot_env() -> (s: &'static str)
    ensures
        s@ == spec_dot_env(),
{
    "# Private key for deployment (without 0x prefix)\nHARA_PK=your_private_key_here\n\n# HARA RPC URL\nHARA_RPC=http://20.198.228.24:5625\n\n# HARA HNS Proxy address\nHARA_HNS_PROXY=0x0000000000000000000000000000000000000000\n\n# Optional: Gas configuration\nGAS_LIMIT=30000000\nGAS_PRICE=0\n"
}

/// The text of `.env.example`: the settings a user fills in.
pub open spec fn spec_dot_env_example() -> Seq<char> {
    "# Private key for deployment (without 0x prefix)\nHARA_PK=<your_private_key_without_0x>\n\n# HARA RPC URL\nHARA_RPC=http://20.198.228.24:5625\n\n# HARA HNS Proxy address\nHARA_HNS_PROXY=0x0000000000000000000000000000000000000000\n\n# Optional: Gas configuration\nGAS_LIMIT=30000000\nGAS_PRICE=0\n"@
}

/// The text of `.env.example`: the settings a user fills in.
pub fn dot_env_example() -> (s: &'static str)
    ensures
        s@ == spec_dot_env_example(),
{
    "# Private key for deployment (without 0x prefix)\nHARA_PK=<your_private_key_without_0x>\n\n# HARA RPC URL\nHARA_RPC=http://20.198.228.24:5625\n\n# HARA HNS Proxy address\nHARA_HNS_PROXY=0x0000000000000000000000000000000000000000\n\n# Optional: Gas configuration\nGAS_LIMIT=30000000\nGAS_PRICE=0\n"
}

/// The text of `.gitignore`: build output, tooling files and secrets.
pub open spec fn spec_gitignore() -> Seq<char> {
    "# Foundry\nout/\ncache/\nbroadcast/\n.env\n\n# Node\nnode_modules/\nnpm-debug.log*\nyarn-debug.log*\nyarn-error.log*\n\n# IDE\n.vscode/\n.idea/\n*.swp\n*.swo\n\n# OS\n.DS_Store\nThumbs.db\n\n# Logs\n*.log\n\n# Runtime data\npids\n*.pid\n*.seed\n*.pid.lock\n\n# Coverage directory used by tools like istanbul\ncoverage/\n*.lcov\n\n# nyc test coverage\n.nyc_output\n\n# Dependency directories\njspm_packages/\n\n# Optional npm cache directory\n.npm\n\n# Optional eslint cache\n.eslintcache\n\n# Microbundle cache\n.rpt2_cache/\n.rts2_cache_cjs/\n.rts2_cache_es/\n.rts2_cache_umd/\n\n# Optional REPL history\n.node_repl_history\n\n# Output of 'npm pack'\n*.tgz\n\n# Yarn Integrity file\n.yarn-integrity\n\n# dotenv environment variables file\n.env.test\n.env.production\n\nlib\n"@
}

/// The text of `.gitignore`: build output, tooling files and secrets.
pub fn gitignore() -> (s: &'static str)
    ensures
        s@ == spec_gitignore(),
{
    "# Foundry\nout/\ncache/\nbroadcast/\n.env\n\n# Node\nnode_modules/\nnpm-debug.log*\nyarn-debug.log*\nyarn-error.log*\n\n# IDE\n.vscode/\n.idea/\n*.swp\n*.swo\n\n# OS\n.DS_Store\nThumbs.db\n\n# Logs\n*.log\n\n# Runtime data\npids\n*.pid\n*.seed\n*.pid.lock\n\n# Coverage directory used by tools like istanbul\ncoverage/\n*.lcov\n\n# nyc test coverage\n.nyc_output\n\n# Dependency directories\njspm_packages/\n\n# Optional npm cache directory\n.npm\n\n# Optional eslint cache\n.eslintcache\n\n# Microbundle cache\n.rpt2_cache/\n.rts2_cache_cjs/\n.rts2_cache_es/\n.rts2_cache_umd/\n\n# Optional REPL history\n.node_repl_history\n\n# Output of 'npm pack'\n*.tgz\n\n# Yarn Integrity file\n.yarn-integrity\n\n# dotenv environment variables file\n.env.test\n.env.production\n\nlib\n"
}

/// The text of `foundry.toml` of the legacy profile, whose RPC endpoint reads `HARA_RPC_URL`.
pub open spec fn spec_legacy_foundry_toml() -> Seq<char> {
    "[profile.default]\nevm_version = \"paris\"\nsrc = \"src\"\nout = \"out\"\nlibs = [\"lib\"]\nsolc_version = \"0.8.29\"\noptimizer = true\noptimizer_runs = 200\n\n# Script permissions (recommended)\nfs_permissions = [\n    { access = \"read\", path = \".\" }\n]\n\n[rpc_endpoints]\nhara = \"${HARA_RPC_URL}\"\n\n[profile.ci]\nfuzz.runs   = 512\ngas_reports = [\"*\"]\n"@
}

/// The text of `foundry.toml` of the legacy profile, whose RPC endpoint reads `HARA_RPC_URL`.
pub fn legacy_foundry_toml() -> (s: &'static str)
    ensures
        s@ == spec_legacy_foundry_toml(),
{
    "[profile.default]\nevm_version = \"paris\"\nsrc = \"src\"\nout = \"out\"\nlibs = [\"lib\"]\nsolc_version = \"0.8.29\"\noptimizer = true\noptimizer_runs = 200\n\n# Script permissions (recommended)\nfs_permissions = [\n    { access = \"read\", path = \".\" }\n]\n\n[rpc_endpoints]\nhara = \"${HARA_RPC_URL}\"\n\n[profile.ci]\nfuzz.runs   = 512\ngas_reports = [\"*\"]\n"
}

/// The text of `.env` of the legacy profile (`PRIVATE_KEY`, `HARA_RPC_URL`).
pub open spec fn spec_legacy_dot_env() -> Seq<char> {
    "# Private key for deployment (without 0x prefix)\nPRIVATE_KEY=your_private_key_here\n\n# HARA RPC URL\nHARA_RPC_URL=http://20.198.228.24:5625\n\n# Optional: Gas configuration\nGAS_LIMIT=30000000\nGAS_PRICE=0\n"@
}

/// The text of `.env` of the legacy profile (`PRIVATE_KEY`, `HARA_RPC_URL`).
pub fn legacy_dot_env() -> (s: &'static str)
    ensures
        s@ == spec_legacy_dot_env(),
{
    "# Private key for deployment (without 0x prefix)\nPRIVATE_KEY=your_private_key_here\n\n# HARA RPC URL\nHARA_RPC_URL=http://20.198.228.24:5625\n\n# Optional: Gas configuration\nGAS_LIMIT=30000000\nGAS_PRICE=0\n"
}

/// The text of `.env.example` of the legacy profile.
pub open spec fn spec_legacy_dot_env_example() -> Seq<char> {
    "# Private key for deployment (without 0x prefix)\nPRIVATE_KEY=<your_private_key_without_0x>\n\n# HARA RPC URL\nHARA_RPC_URL=http://20.198.228.24:5625\n\n# Optional: Gas configuration\nGAS_LIMIT=30000000\nGAS_PRICE=0\n"@
}

/// The text of `.env.example` of the legacy profile.
pub fn legacy_dot_env_example() -> (s: &'static str)
    ensures
        s@ == spec_legacy_dot_env_example(),
{
    "# Private key for deployment (without 0x prefix)\nPRIVATE_KEY=<your_private_key_without_0x>\n\n# HARA RPC URL\nHARA_RPC_URL=http://20.198.228.24:5625\n\n# Optional: Gas configuration\nGAS_LIMIT=30000000\nGAS_PRICE=0\n"
}

} // verus!
