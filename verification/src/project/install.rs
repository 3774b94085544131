use vstd::prelude::*;
use crate::project::exit::{CommandExit, ExitSpec};
use crate::text;

verus! {

/// Which installation procedure runs.
#[derive(Clone, Copy, Debug, PartialEq, Eq)]
pub enum InstallProfile {
    /// PowerShell on Windows, the shell installer elsewhere; foundryup is `foundryup.exe`.
    Standard,
    /// The shell installer everywhere; foundryup is `foundryup`, run directly off Windows.
    Legacy,
}

/// How an installation of Foundry ended without error.
#[derive(Debug, PartialEq, Eq)]
pub enum InstallEnd {
    /// forge, cast and anvil are installed.
    Installed,
    /// foundryup was downloaded but could not be run; the user runs it after restarting
    /// the terminal.
    FoundryupPending,
}

/// The next step of an installation of Foundry.
#[derive(Debug)]
pub enum InstallAction {
    /// Run the PowerShell script that downloads the Windows release into `.foundry/bin`.
    RunPowershell,
    /// Run `curl -fsSL https://foundry.paradigm.xyz | bash` through the shell.
    RunInstaller,
    /// Run foundryup, at this path, through the shell.
    RunFoundryup(String),
    /// Run foundryup, at this path, as a program of its own.
    RunFoundryupDirect(String),
    /// Stop with this result.
    Finish(Result<InstallEnd, String>),
}

/// The value of an [`InstallAction`].
pub enum InstallActionSpec {
    RunPowershell,
    RunInstaller,
    RunFoundryup(Seq<char>),
    RunFoundryupDirect(Seq<char>),
    Finish(Result<InstallEnd, Seq<char>>),
}

impl View for InstallAction {
    type V = InstallActionSpec;

    open spec fn view(&self) -> InstallActionSpec {
        match self {
            InstallAction::RunPowershell => InstallActionSpec::RunPowershell,
            InstallAction::RunInstaller => InstallActionSpec::RunInstaller,
            InstallAction::RunFoundryup(p) => InstallActionSpec::RunFoundryup(p@),
            InstallAction::RunFoundryupDirect(p) => InstallActionSpec::RunFoundryupDirect(p@),
            InstallAction::Finish(Ok(e)) => InstallActionSpec::Finish(Ok(*e)),
            InstallAction::Finish(Err(m)) => InstallActionSpec::Finish(Err(m@)),
        }
    }
}

/// The first step: for the standard procedure, the PowerShell route on Windows; otherwise
/// the shell installer.
pub fn install_start(profile: InstallProfile, windows: bool) -> (a: InstallAction)
    ensures
        a@ == if windows && profile == InstallProfile::Standard {
            InstallActionSpec::RunPowershell
        } else {
            InstallActionSpec::RunInstaller
        },
{
    if windows && matches!(profile, InstallProfile::Standard) {
        InstallAction::RunPowershell
    } else {
        InstallAction::RunInstaller
    }
}

/// The step after the PowerShell script ended.
pub open spec fn spec_after_powershell(exit: ExitSpec) -> InstallActionSpec {
    match exit {
        ExitSpec::LaunchFailed(e) => InstallActionSpec::Finish(Err("Failed to run PowerShell: "@ + e)),
        ExitSpec::Exited(false) => InstallActionSpec::Finish(Err("Foundry installation via PowerShell failed."@)),
        ExitSpec::Exited(true) => InstallActionSpec::Finish(Ok(InstallEnd::Installed)),
    }
}

/// The step after the PowerShell script ended: it fails where the script could not start
/// or reported failure.
pub fn after_powershell(exit: CommandExit) -> (a: InstallAction)
    ensures
        a@ == spec_after_powershell(exit@),
{
    match exit {
        CommandExit::LaunchFailed(e) => {
            let mut m = String::from_str("Failed to run PowerShell: ");
            m.append(e.as_str());
            InstallAction::Finish(Err(m))
        },
        CommandExit::Exited(false) => InstallAction::Finish(
            Err(String::from_str("Foundry installation via PowerShell failed.")),
        ),
        CommandExit::Exited(true) => InstallAction::Finish(Ok(InstallEnd::Installed)),
    }
}

/// The name foundryup is looked for under where it is not found at home.
pub open spec fn spec_foundryup_fallback(profile: InstallProfile) -> Seq<char> {
    match profile {
        InstallProfile::Standard => "foundryup.exe"@,
        InstallProfile::Legacy => "foundryup"@,
    }
}

/// Whether foundryup counts as present after a failing installer: the file exists and is
/// not the bare fallback name.
pub open spec fn spec_foundryup_found(profile: InstallProfile, foundryup: Seq<char>, exists: bool) -> bool {
    exists && foundryup != spec_foundryup_fallback(profile)
}

/// The message for an installer that failed with no foundryup left behind.
pub open spec fn spec_installer_failed(profile: InstallProfile) -> Seq<char> {
    match profile {
        InstallProfile::Standard => "Foundry installer failed.\n  Make sure curl and bash are available."@,
        InstallProfile::Legacy => "Foundry installer failed.\n  Make sure curl and bash (or Git Bash) are available."@,
    }
}

/// How foundryup is run: through the shell with forward slashes in its path, except that
/// the legacy procedure runs it directly off Windows.
pub open spec fn spec_run_foundryup(profile: InstallProfile, windows: bool, foundryup: Seq<char>) -> InstallActionSpec {
    if profile == InstallProfile::Legacy && !windows {
        InstallActionSpec::RunFoundryupDirect(foundryup)
    } else {
        InstallActionSpec::RunFoundryup(text::spec_replace(foundryup, "\\"@, "/"@))
    }
}

/// The step after the shell installer ended. `foundryup` is where foundryup is looked for
/// and `foundryup_exists` whether a file is there. A failing installer is forgiven where
/// foundryup was found.
pub open spec fn spec_after_installer(
    profile: InstallProfile,
    windows: bool,
    exit: ExitSpec,
    foundryup: Seq<char>,
    foundryup_exists: bool,
) -> InstallActionSpec {
    match exit {
        ExitSpec::LaunchFailed(e) => InstallActionSpec::Finish(
            Err("Failed to run installer (requires bash + curl): "@ + e),
        ),
        ExitSpec::Exited(ok) => if ok || spec_foundryup_found(profile, foundryup, foundryup_exists) {
            spec_run_foundryup(profile, windows, foundryup)
        } else {
            InstallActionSpec::Finish(Err(spec_installer_failed(profile)))
        },
    }
}

/// The step after the shell installer ended.
pub fn after_installer(
    profile: InstallProfile,
    windows: bool,
    exit: CommandExit,
    foundryup: &str,
    foundryup_exists: bool,
) -> (a: InstallAction)
    ensures
        a@ == spec_after_installer(profile, windows, exit@, foundryup@, foundryup_exists),
{
    match exit {
        CommandExit::LaunchFailed(e) => {
            let mut m = String::from_str("Failed to run installer (requires bash + curl): ");
            m.append(e.as_str());
            InstallAction::Finish(Err(m))
        },
        CommandExit::Exited(ok) => {
            let fallback = match profile {
                InstallProfile::Standard => "foundryup.exe",
                InstallProfile::Legacy => "foundryup",
            };
            let found = foundryup_exists && !text::str_eq(foundryup, fallback);
            if ok || found {
                if matches!(profile, InstallProfile::Legacy) && !windows {
                    InstallAction::RunFoundryupDirect(String::from_str(foundryup))
                } else {
                    proof {
                        reveal_strlit("\\");
                    }
                    InstallAction::RunFoundryup(text::replace(foundryup, "\\", "/"))
                }
            } else {
                match profile {
                    InstallProfile::Standard => InstallAction::Finish(
                        Err(String::from_str("Foundry installer failed.\n  Make sure curl and bash are available.")),
                    ),
                    InstallProfile::Legacy => InstallAction::Finish(
                        Err(
                            String::from_str(
                                "Foundry installer failed.\n  Make sure curl and bash (or Git Bash) are available.",
                            ),
                        ),
                    ),
                }
            }
        },
    }
}

/// The step after foundryup ended: installed where it succeeded; otherwise the run still
/// ends without error, with foundryup left for the user to run.
pub fn after_foundryup(exit: CommandExit) -> (a: InstallAction)
    ensures
        a@ == InstallActionSpec::Finish(Ok(if exit@ == ExitSpec::Exited(true) {
            InstallEnd::Installed
        } else {
            InstallEnd::FoundryupPending
        })),
{
    match exit {
        CommandExit::Exited(true) => InstallAction::Finish(Ok(InstallEnd::Installed)),
        _ => InstallAction::Finish(Ok(InstallEnd::FoundryupPending)),
    }
}

} // verus!
