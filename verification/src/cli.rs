use vstd::prelude::*;

verus! {

/// The parsed command line.
pub struct Cli {
    pub command: Commands,
}

/// The high-level subcommands.
pub enum Commands {
    /// Foundry-related utilities (init, install, contract).
    Foundry(FoundryArgs),
    /// HARA Network Solution (HNS) registry and ABI tooling.
    Hns(HnsArgs),
}

/// Arguments for HNS operations.
pub struct HnsArgs {
    pub command: HnsCommands,
}

/// Subcommands for the HNS registry and ABI tooling.
pub enum HnsCommands {
    /// Register contract addresses and ABIs to the HNS registry.
    Register(RegisterArgs),
    /// Encode, decode, or inspect ABI binary files.
    Codex(CodexArgs),
}

/// Arguments for Register operations.
pub struct RegisterArgs {
    pub command: Option<RegisterSubcommands>,
    /// Path to a JSON schema file or a directory containing JSON schema files.
    pub path: Option<String>,
}

/// Subcommands for the HNS Register.
pub enum RegisterSubcommands {
    /// Re-prompt for environment configurations (RPC, PK, Proxy Address).
    Reset,
}

/// Arguments for Codex operations.
pub struct CodexArgs {
    pub command: CodexSubcommands,
}

/// Subcommands for the ABI Codex.
pub enum CodexSubcommands {
    /// Encode JSON ABI files into compact binary (.abi.bin) format.
    Encode { target: String },
    /// Decode a compact binary (.abi.bin) file back to JSON.
    Decode { path: String },
    /// Inspect a compact binary (.abi.bin) file with a detailed hex dump.
    Inspect { path: String },
}

/// Arguments for Foundry-related operations.
pub struct FoundryArgs {
    pub command: FoundryCommands,
}

/// Subcommands for the Foundry toolchain and contract scaffolding.
pub enum FoundryCommands {
    /// Initialise a HARA-standard Foundry project.
    Init,
    /// Install the official Foundry toolchain (forge, cast, anvil).
    Install,
    /// Scaffold new smart contract structures.
    Contract(ContractArgs),
}

/// Arguments for contract scaffolding operations.
pub struct ContractArgs {
    pub command: ContractCommands,
}

/// Contract templates supported for scaffolding.
pub enum ContractCommands {
    /// Scaffold an Upgradeable Contract using the Diamond Storage pattern.
    Uc { name: String },
}

/// The operation a command line asks for.
#[derive(Debug, PartialEq, Eq)]
pub enum Action {
    /// Re-prompt for the registry configuration.
    RegisterReset,
    /// Register the schemas at a path.
    Register(String),
    /// Encode the JSON ABIs at a path.
    CodexEncode(String),
    /// Decode a binary ABI file.
    CodexDecode(String),
    /// Inspect a binary ABI file.
    CodexInspect(String),
    /// Initialise a Foundry project.
    FoundryInit,
    /// Install Foundry.
    FoundryInstall,
    /// Scaffold an upgradeable contract.
    ScaffoldUc(String),
}

/// The value of an [`Action`].
pub enum ActionSpec {
    RegisterReset,
    Register(Seq<char>),
    CodexEncode(Seq<char>),
    CodexDecode(Seq<char>),
    CodexInspect(Seq<char>),
    FoundryInit,
    FoundryInstall,
    ScaffoldUc(Seq<char>),
}

impl View for Action {
    type V = ActionSpec;

    open spec fn view(&self) -> ActionSpec {
        match self {
            Action::RegisterReset => ActionSpec::RegisterReset,
            Action::Register(p) => ActionSpec::Register(p@),
            Action::CodexEncode(p) => ActionSpec::CodexEncode(p@),
            Action::CodexDecode(p) => ActionSpec::CodexDecode(p@),
            Action::CodexInspect(p) => ActionSpec::CodexInspect(p@),
            Action::FoundryInit => ActionSpec::FoundryInit,
            Action::FoundryInstall => ActionSpec::FoundryInstall,
            Action::ScaffoldUc(n) => ActionSpec::ScaffoldUc(n@),
        }
    }
}

/// The operation a command line asks for: `register reset` re-prompts; `register` alone
/// registers the current directory.
pub open spec fn spec_dispatch(cli: Cli) -> ActionSpec {
    match cli.command {
        Commands::Hns(h) => match h.command {
            HnsCommands::Register(r) => if r.command is Some {
                ActionSpec::RegisterReset
            } else if r.path is Some {
                ActionSpec::Register(r.path->Some_0@)
            } else {
                ActionSpec::Register("."@)
            },
            HnsCommands::Codex(c) => match c.command {
                CodexSubcommands::Encode { target } => ActionSpec::CodexEncode(target@),
                CodexSubcommands::Decode { path } => ActionSpec::CodexDecode(path@),
                CodexSubcommands::Inspect { path } => ActionSpec::CodexInspect(path@),
            },
        },
        Commands::Foundry(f) => match f.command {
            FoundryCommands::Init => ActionSpec::FoundryInit,
            FoundryCommands::Install => ActionSpec::FoundryInstall,
            FoundryCommands::Contract(c) => match c.command {
                ContractCommands::Uc { name } => ActionSpec::ScaffoldUc(name@),
            },
        },
    }
}

/// The operation a parsed command line asks for.
pub fn dispatch(cli: Cli) -> (a: Action)
    ensures
        a@ == spec_dispatch(cli),
{
    match cli.command {
        Commands::Hns(h) => match h.command {
            HnsCommands::Register(r) => match r.command {
                Some(RegisterSubcommands::Reset) => Action::RegisterReset,
                None => match r.path {
                    Some(p) => Action::Register(p),
                    None => Action::Register(String::from_str(".")),
                },
            },
            HnsCommands::Codex(c) => match c.command {
                CodexSubcommands::Encode { target } => Action::CodexEncode(target),
                CodexSubcommands::Decode { path } => Action::CodexDecode(path),
                CodexSubcommands::Inspect { path } => Action::CodexInspect(path),
            },
        },
        Commands::Foundry(f) => match f.command {
            FoundryCommands::Init => Action::FoundryInit,
            FoundryCommands::Install => Action::FoundryInstall,
            FoundryCommands::Contract(c) => match c.command {
                ContractCommands::Uc { name } => Action::ScaffoldUc(name),
            },
        },
    }
}

} // verus!
