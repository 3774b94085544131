use vstd::prelude::*;
use crate::gitignore;
use crate::project::exit::{CommandExit, ExitSpec};
use crate::project::files;

verus! {

/// Which set of configuration files a project is initialised with.
#[derive(Clone, Copy, Debug, PartialEq, Eq)]
pub enum InitProfile {
    /// The current files: `HARA_RPC`, `HARA_PK` and `HARA_HNS_PROXY` settings.
    Standard,
    /// The earlier files: `PRIVATE_KEY` and `HARA_RPC_URL` settings.
    Legacy,
}

/// The `foundry.toml` text of a profile.
pub open spec fn spec_toml_text(profile: InitProfile) -> Seq<char> {
    match profile {
        InitProfile::Standard => files::spec_foundry_toml(),
        InitProfile::Legacy => files::spec_legacy_foundry_toml(),
    }
}

/// The `.env` text of a profile.
pub open spec fn spec_env_text(profile: InitProfile) -> Seq<char> {
    match profile {
        InitProfile::Standard => files::spec_dot_env(),
        InitProfile::Legacy => files::spec_legacy_dot_env(),
    }
}

/// The `.env.example` text of a profile.
pub open spec fn spec_env_example_text(profile: InitProfile) -> Seq<char> {
    match profile {
        InitProfile::Standard => files::spec_dot_env_example(),
        InitProfile::Legacy => files::spec_legacy_dot_env_example(),
    }
}

fn toml_text(profile: InitProfile) -> (s: &'static str)
    ensures
        s@ == spec_toml_text(profile),
{
    match profile {
        InitProfile::Standard => files::foundry_toml(),
        InitProfile::Legacy => files::legacy_foundry_toml(),
    }
}

fn env_text(profile: InitProfile) -> (s: &'static str)
    ensures
        s@ == spec_env_text(profile),
{
    match profile {
        InitProfile::Standard => files::dot_env(),
        InitProfile::Legacy => files::legacy_dot_env(),
    }
}

fn env_example_text(profile: InitProfile) -> (s: &'static str)
    ensures
        s@ == spec_env_example_text(profile),
{
    match profile {
        InitProfile::Standard => files::dot_env_example(),
        InitProfile::Legacy => files::legacy_dot_env_example(),
    }
}

/// Where the initialisation of a project stands: each state awaits the answer to the step
/// that led to it.
#[derive(Clone, Copy, Debug, PartialEq, Eq)]
pub enum InitState {
    /// Nothing has been done yet.
    Start,
    /// Awaits whether `foundry.toml` exists.
    CheckedToml,
    /// Awaits `forge init --force --no-git`.
    ForgeInitNoGit,
    /// Awaits `forge init --force`, the retry with git.
    ForgeInit,
    /// Awaits whether `.git` exists.
    CheckedGit,
    /// Awaits `git init`.
    GitInit,
    /// Awaits the install of OpenZeppelin Contracts.
    InstalledContracts,
    /// Awaits the install of OpenZeppelin Upgradeable Contracts.
    InstalledUpgradeable,
    /// Awaits the install of the Forge Standard Library.
    InstalledForgeStd,
    /// Awaits the write of `foundry.toml`.
    WroteToml,
    /// Awaits the write of `remappings.txt`.
    WroteRemappings,
    /// Awaits whether `.env` exists.
    CheckedEnv,
    /// Awaits the write of `.env`.
    WroteEnv,
    /// Awaits the write of `.env.example`.
    WroteEnvExample,
    /// Awaits whether `.gitignore` exists.
    CheckedGitignore,
    /// Awaits the write of a new `.gitignore`.
    WroteGitignore,
    /// Awaits the text of the existing `.gitignore`.
    ReadGitignore,
    /// Awaits the write of the updated `.gitignore`.
    UpdatedGitignore,
    /// Awaits `forge build`.
    Built,
}

/// A step of the initialisation, for the caller to carry out.
#[derive(Debug)]
pub enum InitAction {
    /// Tell whether this path exists.
    Check(&'static str),
    /// Run forge with these arguments.
    Forge(Vec<&'static str>),
    /// Run `git init`.
    GitInit,
    /// Write this text to this path.
    Write(&'static str, String),
    /// Read the text at this path.
    Read(&'static str),
    /// Stop with this result.
    Finish(Result<(), String>),
}

/// The value of an [`InitAction`].
pub enum InitActionSpec {
    Check(Seq<char>),
    Forge(Seq<Seq<char>>),
    GitInit,
    Write(Seq<char>, Seq<char>),
    Read(Seq<char>),
    Finish(Result<(), Seq<char>>),
}

impl View for InitAction {
    type V = InitActionSpec;

    open spec fn view(&self) -> InitActionSpec {
        match self {
            InitAction::Check(p) => InitActionSpec::Check(p@),
            InitAction::Forge(args) => InitActionSpec::Forge(args@.map_values(|a: &'static str| a@)),
            InitAction::GitInit => InitActionSpec::GitInit,
            InitAction::Write(p, t) => InitActionSpec::Write(p@, t@),
            InitAction::Read(p) => InitActionSpec::Read(p@),
            InitAction::Finish(Ok(())) => InitActionSpec::Finish(Ok(())),
            InitAction::Finish(Err(e)) => InitActionSpec::Finish(Err(e@)),
        }
    }
}

/// The answer to a step, as the caller hands it back.
#[derive(Debug)]
pub enum InitEvent {
    /// The run begins.
    Begin,
    /// Whether the checked path exists.
    Exists(bool),
    /// How the forge run went (see `forge_result`).
    Forged(Result<(), String>),
    /// How `git init` ended.
    Git(CommandExit),
    /// Whether the write succeeded, or the message of its error.
    Wrote(Result<(), String>),
    /// The text read, or the message of the error.
    Read(Result<String, String>),
}

/// The value of an [`InitEvent`].
pub enum InitEventSpec {
    Begin,
    Exists(bool),
    Forged(Result<(), Seq<char>>),
    Git(ExitSpec),
    Wrote(Result<(), Seq<char>>),
    Read(Result<Seq<char>, Seq<char>>),
}

impl View for InitEvent {
    type V = InitEventSpec;

    open spec fn view(&self) -> InitEventSpec {
        match self {
            InitEvent::Begin => InitEventSpec::Begin,
            InitEvent::Exists(b) => InitEventSpec::Exists(*b),
            InitEvent::Forged(Ok(())) => InitEventSpec::Forged(Ok(())),
            InitEvent::Forged(Err(e)) => InitEventSpec::Forged(Err(e@)),
            InitEvent::Git(x) => InitEventSpec::Git(x@),
            InitEvent::Wrote(Ok(())) => InitEventSpec::Wrote(Ok(())),
            InitEvent::Wrote(Err(e)) => InitEventSpec::Wrote(Err(e@)),
            InitEvent::Read(Ok(t)) => InitEventSpec::Read(Ok(t@)),
            InitEvent::Read(Err(e)) => InitEventSpec::Read(Err(e@)),
        }
    }
}

/// Whether `event` is the kind of answer that `state` awaits.
pub open spec fn spec_answers(state: InitState, event: InitEventSpec) -> bool {
    match state {
        InitState::Start => event is Begin,
        InitState::CheckedToml | InitState::CheckedGit | InitState::CheckedEnv
        | InitState::CheckedGitignore => event is Exists,
        InitState::ForgeInitNoGit | InitState::ForgeInit | InitState::InstalledContracts
        | InitState::InstalledUpgradeable | InitState::InstalledForgeStd | InitState::Built => event is Forged,
        InitState::GitInit => event is Git,
        InitState::WroteToml | InitState::WroteRemappings | InitState::WroteEnv
        | InitState::WroteEnvExample | InitState::WroteGitignore | InitState::UpdatedGitignore => event is Wrote,
        InitState::ReadGitignore => event is Read,
    }
}

/// Whether `event` is the kind of answer that `state` awaits.
pub fn answers(state: InitState, event: &InitEvent) -> (b: bool)
    ensures
        b == spec_answers(state, event@),
{
    match state {
        InitState::Start => matches!(event, InitEvent::Begin),
        InitState::CheckedToml | InitState::CheckedGit | InitState::CheckedEnv
        | InitState::CheckedGitignore => matches!(event, InitEvent::Exists(_)),
        InitState::ForgeInitNoGit | InitState::ForgeInit | InitState::InstalledContracts
        | InitState::InstalledUpgradeable | InitState::InstalledForgeStd | InitState::Built => matches!(
            event,
            InitEvent::Forged(_)
        ),
        InitState::GitInit => matches!(event, InitEvent::Git(_)),
        InitState::WroteToml | InitState::WroteRemappings | InitState::WroteEnv
        | InitState::WroteEnvExample | InitState::WroteGitignore | InitState::UpdatedGitignore => matches!(
            event,
            InitEvent::Wrote(_)
        ),
        InitState::ReadGitignore => matches!(event, InitEvent::Read(_)),
    }
}

/// The git check, which follows the forge project.
pub open spec fn spec_check_git() -> (InitState, InitActionSpec) {
    (InitState::CheckedGit, InitActionSpec::Check(".git"@))
}

/// The first dependency install, which follows the git repository.
pub open spec fn spec_install_contracts() -> (InitState, InitActionSpec) {
    (
        InitState::InstalledContracts,
        InitActionSpec::Forge(seq!["install"@, "openzeppelin/openzeppelin-contracts@v5.0.1"@]),
    )
}

/// The final build.
pub open spec fn spec_build() -> (InitState, InitActionSpec) {
    (InitState::Built, InitActionSpec::Forge(seq!["build"@]))
}

/// The write of `.env.example`.
pub open spec fn spec_write_env_example(profile: InitProfile) -> (InitState, InitActionSpec) {
    (InitState::WroteEnvExample, InitActionSpec::Write(".env.example"@, spec_env_example_text(profile)))
}

/// A step's failure: stop with the message.
pub open spec fn spec_fail(state: InitState, message: Seq<char>) -> (InitState, InitActionSpec) {
    (state, InitActionSpec::Finish(Err(message)))
}

/// The step after `state` receives `event`, for an event that `state` awaits, writing the
/// files of `profile`.
///
/// The run checks for `foundry.toml` and runs `forge init` only where it is missing
/// (retrying with git where `--no-git` fails); initialises git where `.git` is missing;
/// installs the three libraries, ignoring failures; writes `foundry.toml` and
/// `remappings.txt`; writes `.env` only where it is missing, then `.env.example`; writes
/// `.gitignore` where it is missing, else adds `.env` to it where it is not listed; and
/// ends with `forge build`. A failure of any other step ends the run with its message.
pub open spec fn spec_init_next(profile: InitProfile, state: InitState, event: InitEventSpec) -> (InitState, InitActionSpec) {
    match (state, event) {
        (InitState::Start, _) => (InitState::CheckedToml, InitActionSpec::Check("foundry.toml"@)),
        (InitState::CheckedToml, InitEventSpec::Exists(true)) => spec_check_git(),
        (InitState::CheckedToml, _) => (
            InitState::ForgeInitNoGit,
            InitActionSpec::Forge(seq!["init"@, "--force"@, "--no-git"@]),
        ),
        (InitState::ForgeInitNoGit, InitEventSpec::Forged(Ok(()))) => spec_check_git(),
        (InitState::ForgeInitNoGit, _) => (InitState::ForgeInit, InitActionSpec::Forge(seq!["init"@, "--force"@])),
        (InitState::ForgeInit, InitEventSpec::Forged(Err(e))) => spec_fail(state, e),
        (InitState::ForgeInit, _) => spec_check_git(),
        (InitState::CheckedGit, InitEventSpec::Exists(true)) => spec_install_contracts(),
        (InitState::CheckedGit, _) => (InitState::GitInit, InitActionSpec::GitInit),
        (InitState::GitInit, InitEventSpec::Git(ExitSpec::LaunchFailed(e))) => spec_fail(
            state,
            "Failed to run git init: "@ + e,
        ),
        (InitState::GitInit, InitEventSpec::Git(ExitSpec::Exited(false))) => spec_fail(
            state,
            "git init failed. Make sure git is installed."@,
        ),
        (InitState::GitInit, _) => spec_install_contracts(),
        (InitState::InstalledContracts, _) => (
            InitState::InstalledUpgradeable,
            InitActionSpec::Forge(seq!["install"@, "openzeppelin/openzeppelin-contracts-upgradeable@v5.0.1"@]),
        ),
        (InitState::InstalledUpgradeable, _) => (
            InitState::InstalledForgeStd,
            InitActionSpec::Forge(seq!["install"@, "foundry-rs/forge-std"@]),
        ),
        (InitState::InstalledForgeStd, _) => (
            InitState::WroteToml,
            InitActionSpec::Write("foundry.toml"@, spec_toml_text(profile)),
        ),
        (InitState::WroteToml, InitEventSpec::Wrote(Err(e))) => spec_fail(
            state,
            "Failed to write foundry.toml: "@ + e,
        ),
        (InitState::WroteToml, _) => (
            InitState::WroteRemappings,
            InitActionSpec::Write("remappings.txt"@, files::spec_remappings()),
        ),
        (InitState::WroteRemappings, InitEventSpec::Wrote(Err(e))) => spec_fail(
            state,
            "Failed to write remappings.txt: "@ + e,
        ),
        (InitState::WroteRemappings, _) => (InitState::CheckedEnv, InitActionSpec::Check(".env"@)),
        (InitState::CheckedEnv, InitEventSpec::Exists(true)) => spec_write_env_example(profile),
        (InitState::CheckedEnv, _) => (
            InitState::WroteEnv,
            InitActionSpec::Write(".env"@, spec_env_text(profile)),
        ),
        (InitState::WroteEnv, InitEventSpec::Wrote(Err(e))) => spec_fail(state, "Failed to write .env: "@ + e),
        (InitState::WroteEnv, _) => spec_write_env_example(profile),
        (InitState::WroteEnvExample, InitEventSpec::Wrote(Err(e))) => spec_fail(
            state,
            "Failed to write .env.example: "@ + e,
        ),
        (InitState::WroteEnvExample, _) => (InitState::CheckedGitignore, InitActionSpec::Check(".gitignore"@)),
        (InitState::CheckedGitignore, InitEventSpec::Exists(true)) => (
            InitState::ReadGitignore,
            InitActionSpec::Read(".gitignore"@),
        ),
        (InitState::CheckedGitignore, _) => (
            InitState::WroteGitignore,
            InitActionSpec::Write(".gitignore"@, files::spec_gitignore()),
        ),
        (InitState::WroteGitignore, InitEventSpec::Wrote(Err(e))) => spec_fail(
            state,
            "Failed to write .gitignore: "@ + e,
        ),
        (InitState::WroteGitignore, _) => spec_build(),
        (InitState::ReadGitignore, InitEventSpec::Read(Err(e))) => spec_fail(
            state,
            "Failed to read .gitignore: "@ + e,
        ),
        (InitState::ReadGitignore, InitEventSpec::Read(Ok(text))) => match gitignore::spec_with_entry(
            text,
            ".env"@,
        ) {
            Some(updated) => (InitState::UpdatedGitignore, InitActionSpec::Write(".gitignore"@, updated)),
            None => spec_build(),
        },
        (InitState::ReadGitignore, _) => spec_build(),
        (InitState::UpdatedGitignore, InitEventSpec::Wrote(Err(e))) => spec_fail(
            state,
            "Failed to update .gitignore: "@ + e,
        ),
        (InitState::UpdatedGitignore, _) => spec_build(),
        (InitState::Built, InitEventSpec::Forged(Err(e))) => spec_fail(state, e),
        (InitState::Built, _) => (state, InitActionSpec::Finish(Ok(()))),
    }
}

/// `prefix` followed by `e`.
fn prefixed(prefix: &str, e: &str) -> (s: String)
    ensures
        s@ == prefix@ + e@,
{
    let mut s = String::from_str(prefix);
    s.append(e);
    s
}

fn check_git() -> (r: (InitState, InitAction))
    ensures
        (r.0, r.1@) == spec_check_git(),
{
    (InitState::CheckedGit, InitAction::Check(".git"))
}

fn install_contracts() -> (r: (InitState, InitAction))
    ensures
        (r.0, r.1@) == spec_install_contracts(),
{
    let args = vec!["install", "openzeppelin/openzeppelin-contracts@v5.0.1"];
    assert(args@.map_values(|a: &'static str| a@) =~= seq![
        "install"@,
        "openzeppelin/openzeppelin-contracts@v5.0.1"@,
    ]);
    (InitState::InstalledContracts, InitAction::Forge(args))
}

fn build() -> (r: (InitState, InitAction))
    ensures
        (r.0, r.1@) == spec_build(),
{
    let args = vec!["build"];
    assert(args@.map_values(|a: &'static str| a@) =~= seq!["build"@]);
    (InitState::Built, InitAction::Forge(args))
}

fn write_env_example(profile: InitProfile) -> (r: (InitState, InitAction))
    ensures
        (r.0, r.1@) == spec_write_env_example(profile),
{
    (InitState::WroteEnvExample, InitAction::Write(".env.example", String::from_str(env_example_text(profile))))
}

fn fail(state: InitState, message: String) -> (r: (InitState, InitAction))
    ensures
        (r.0, r.1@) == spec_fail(state, message@),
{
    (state, InitAction::Finish(Err(message)))
}

/// The step after `state` receives `event`, writing the files of `profile`.
pub fn init_next(profile: InitProfile, state: InitState, event: InitEvent) -> (r: (InitState, InitAction))
    requires
        spec_answers(state, event@),
    ensures
        (r.0, r.1@) == spec_init_next(profile, state, event@),
{
    match state {
        InitState::Start => (InitState::CheckedToml, InitAction::Check("foundry.toml")),
        InitState::CheckedToml => match event {
            InitEvent::Exists(true) => check_git(),
            _ => {
                let args = vec!["init", "--force", "--no-git"];
                assert(args@.map_values(|a: &'static str| a@) =~= seq!["init"@, "--force"@, "--no-git"@]);
                (InitState::ForgeInitNoGit, InitAction::Forge(args))
            },
        },
        InitState::ForgeInitNoGit => match event {
            InitEvent::Forged(Ok(())) => check_git(),
            _ => {
                let args = vec!["init", "--force"];
                assert(args@.map_values(|a: &'static str| a@) =~= seq!["init"@, "--force"@]);
                (InitState::ForgeInit, InitAction::Forge(args))
            },
        },
        InitState::ForgeInit => match event {
            InitEvent::Forged(Err(e)) => fail(state, e),
            _ => check_git(),
        },
        InitState::CheckedGit => match event {
            InitEvent::Exists(true) => install_contracts(),
            _ => (InitState::GitInit, InitAction::GitInit),
        },
        InitState::GitInit => match event {
            InitEvent::Git(CommandExit::LaunchFailed(e)) => fail(
                state,
                prefixed("Failed to run git init: ", e.as_str()),
            ),
            InitEvent::Git(CommandExit::Exited(false)) => fail(
                state,
                String::from_str("git init failed. Make sure git is installed."),
            ),
            _ => install_contracts(),
        },
        InitState::InstalledContracts => {
            let args = vec!["install", "openzeppelin/openzeppelin-contracts-upgradeable@v5.0.1"];
            assert(args@.map_values(|a: &'static str| a@) =~= seq![
                "install"@,
                "openzeppelin/openzeppelin-contracts-upgradeable@v5.0.1"@,
            ]);
            (InitState::InstalledUpgradeable, InitAction::Forge(args))
        },
        InitState::InstalledUpgradeable => {
            let args = vec!["install", "foundry-rs/forge-std"];
            assert(args@.map_values(|a: &'static str| a@) =~= seq!["install"@, "foundry-rs/forge-std"@]);
            (InitState::InstalledForgeStd, InitAction::Forge(args))
        },
        InitState::InstalledForgeStd => (
            InitState::WroteToml,
            InitAction::Write("foundry.toml", String::from_str(toml_text(profile))),
        ),
        InitState::WroteToml => match event {
            InitEvent::Wrote(Err(e)) => fail(state, prefixed("Failed to write foundry.toml: ", e.as_str())),
            _ => (InitState::WroteRemappings, InitAction::Write("remappings.txt", String::from_str(files::remappings()))),
        },
        InitState::WroteRemappings => match event {
            InitEvent::Wrote(Err(e)) => fail(state, prefixed("Failed to write remappings.txt: ", e.as_str())),
            _ => (InitState::CheckedEnv, InitAction::Check(".env")),
        },
        InitState::CheckedEnv => match event {
            InitEvent::Exists(true) => write_env_example(profile),
            _ => (InitState::WroteEnv, InitAction::Write(".env", String::from_str(env_text(profile)))),
        },
        InitState::WroteEnv => match event {
            InitEvent::Wrote(Err(e)) => fail(state, prefixed("Failed to write .env: ", e.as_str())),
            _ => write_env_example(profile),
        },
        InitState::WroteEnvExample => match event {
            InitEvent::Wrote(Err(e)) => fail(state, prefixed("Failed to write .env.example: ", e.as_str())),
            _ => (InitState::CheckedGitignore, InitAction::Check(".gitignore")),
        },
        InitState::CheckedGitignore => match event {
            InitEvent::Exists(true) => (InitState::ReadGitignore, InitAction::Read(".gitignore")),
            _ => (InitState::WroteGitignore, InitAction::Write(".gitignore", String::from_str(files::gitignore()))),
        },
        InitState::WroteGitignore => match event {
            InitEvent::Wrote(Err(e)) => fail(state, prefixed("Failed to write .gitignore: ", e.as_str())),
            _ => build(),
        },
        InitState::ReadGitignore => match event {
            InitEvent::Read(Err(e)) => fail(state, prefixed("Failed to read .gitignore: ", e.as_str())),
            InitEvent::Read(Ok(text)) => match gitignore::gitignore_with_entry(text.as_str(), ".env") {
                Some(updated) => (InitState::UpdatedGitignore, InitAction::Write(".gitignore", updated)),
                None => build(),
            },
            _ => build(),
        },
        InitState::UpdatedGitignore => match event {
            InitEvent::Wrote(Err(e)) => fail(state, prefixed("Failed to update .gitignore: ", e.as_str())),
            _ => build(),
        },
        InitState::Built => match event {
            InitEvent::Forged(Err(e)) => fail(state, e),
            _ => (state, InitAction::Finish(Ok(()))),
        },
    }
}

/// An existing `.env` is never overwritten: the one step that writes `.env` follows the
/// check that found it missing.
pub proof fn law_init_keeps_existing_env(profile: InitProfile, state: InitState, event: InitEventSpec)
    requires
        spec_answers(state, event),
    ensures
        spec_init_next(profile, state, event).1 matches InitActionSpec::Write(p, _) && p == ".env"@ ==> state
            == InitState::CheckedEnv && event == InitEventSpec::Exists(false),
{
    reveal_strlit(".env");
    reveal_strlit(".env.example");
    reveal_strlit(".gitignore");
    reveal_strlit("foundry.toml");
    reveal_strlit("remappings.txt");
    assert(".env"@.len() == 4);
    assert(".env.example"@.len() == 12);
    assert(".gitignore"@.len() == 10);
    assert("foundry.toml"@.len() == 12);
    assert("remappings.txt"@.len() == 14);
}

/// `forge init` runs only where `foundry.toml` is missing: after the check that found it
/// missing, or as the retry after `forge init --no-git` failed.
pub proof fn law_init_forge_init_only_without_config(
    profile: InitProfile,
    state: InitState,
    event: InitEventSpec,
)
    requires
        spec_answers(state, event),
    ensures
        spec_init_next(profile, state, event).1 matches InitActionSpec::Forge(args) && args.len() > 0
            && args[0] == "init"@ ==> (state == InitState::CheckedToml && event == InitEventSpec::Exists(
            false,
        )) || (state == InitState::ForgeInitNoGit && event matches InitEventSpec::Forged(Err(_))),
{
    reveal_strlit("init");
    reveal_strlit("install");
    reveal_strlit("build");
    assert("init"@.len() == 4);
    assert("install"@.len() == 7);
    assert("build"@.len() == 5);
}

/// Where `.gitignore` exists, the run leaves `.env` listed in it: the text it writes back
/// lists `.env`, and where it writes nothing the text already did.
pub proof fn law_init_gitignore_lists_env(profile: InitProfile, text: Seq<char>)
    ensures
        match spec_init_next(profile, InitState::ReadGitignore, InitEventSpec::Read(Ok(text))) {
            (InitState::UpdatedGitignore, InitActionSpec::Write(p, t)) => p == ".gitignore"@
                && gitignore::spec_has_line(t, ".env"@),
            (InitState::Built, _) => gitignore::spec_has_line(text, ".env"@),
            _ => false,
        },
{
    reveal_strlit(".env");
    assert(!".env"@.contains('\n')) by {
        assert(forall|i: int| 0 <= i < 4 ==> ".env"@[i] != '\n');
    }
    assert(crate::text::spec_trim(".env"@) == ".env"@);
    gitignore::law_gitignore_entry_idempotent(text, ".env"@);
}

/// The position of a state in the run, from its start to the build.
pub open spec fn spec_rank(state: InitState) -> nat {
    match state {
        InitState::Start => 0,
        InitState::CheckedToml => 1,
        InitState::ForgeInitNoGit => 2,
        InitState::ForgeInit => 3,
        InitState::CheckedGit => 4,
        InitState::GitInit => 5,
        InitState::InstalledContracts => 6,
        InitState::InstalledUpgradeable => 7,
        InitState::InstalledForgeStd => 8,
        InitState::WroteToml => 9,
        InitState::WroteRemappings => 10,
        InitState::CheckedEnv => 11,
        InitState::WroteEnv => 12,
        InitState::WroteEnvExample => 13,
        InitState::CheckedGitignore => 14,
        InitState::WroteGitignore => 15,
        InitState::ReadGitignore => 16,
        InitState::UpdatedGitignore => 17,
        InitState::Built => 18,
    }
}

/// The run always moves forward: every step either finishes or leads to a later state, so
/// a run ends after at most as many steps as there are states.
pub proof fn law_init_progresses(profile: InitProfile, state: InitState, event: InitEventSpec)
    requires
        spec_answers(state, event),
    ensures
        spec_init_next(profile, state, event).1 is Finish || spec_rank(state) < spec_rank(spec_init_next(profile, state, event).0),
{
}

} // verus!
