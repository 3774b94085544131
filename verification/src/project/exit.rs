use vstd::prelude::*;

verus! {

/// How a launched program ended, as the operating system reports it.
#[derive(Debug)]
pub enum CommandExit {
    /// It could not be started; the message says why.
    LaunchFailed(String),
    /// It ran to its end; `true` where its exit status reports success.
    Exited(bool),
}

/// The value of a [`CommandExit`].
pub enum ExitSpec {
    LaunchFailed(Seq<char>),
    Exited(bool),
}

impl View for CommandExit {
    type V = ExitSpec;

    open spec fn view(&self) -> ExitSpec {
        match self {
            CommandExit::LaunchFailed(m) => ExitSpec::LaunchFailed(m@),
            CommandExit::Exited(ok) => ExitSpec::Exited(*ok),
        }
    }
}

} // verus!
