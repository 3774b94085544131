use vstd::prelude::*;
use crate::project::exit::{CommandExit, ExitSpec};

verus! {

/// Words joined by single spaces.
pub open spec fn spec_join_words(words: Seq<Seq<char>>) -> Seq<char>
    decreases words.len(),
{
    if words.len() == 0 {
        Seq::empty()
    } else if words.len() == 1 {
        words[0]
    } else {
        spec_join_words(words.drop_last()) + " "@ + words.last()
    }
}

/// How a forge command line is shown: `forge` and its arguments.
pub open spec fn spec_forge_display(args: Seq<Seq<char>>) -> Seq<char> {
    "forge "@ + spec_join_words(args)
}

/// The forge command line with the given arguments, as shown to the user.
pub fn forge_display(args: &[&str]) -> (s: String)
    ensures
        s@ == spec_forge_display(args@.map_values(|a: &str| a@)),
{
    let ghost words = args@.map_values(|a: &str| a@);
    let mut s = String::from_str("forge ");
    let mut i: usize = 0;
    while i < args.len()
        invariant
            i <= args@.len(),
            words == args@.map_values(|a: &str| a@),
            s@ == "forge "@ + spec_join_words(words.take(i as int)),
        decreases args@.len() - i,
    {
        if i > 0 {
            s.append(" ");
        }
        s.append(args[i]);
        proof {
            let t = words.take(i + 1);
            assert(t.drop_last() =~= words.take(i as int));
            assert(t.last() == args@[i as int]@);
            if i == 0 {
                assert(words.take(0) =~= Seq::<Seq<char>>::empty());
                assert(t[0] == args@[0]@);
            }
        }
        i = i + 1;
    }
    assert(words.take(args@.len() as int) =~= words);
    s
}

/// What a forge run comes to: success, a failure to start it with advice to install
/// Foundry, or a failing exit status; both errors show the command line.
pub open spec fn spec_forge_result(args: Seq<Seq<char>>, exit: ExitSpec) -> Result<(), Seq<char>> {
    match exit {
        ExitSpec::LaunchFailed(e) => Err(
            "Failed to launch `"@ + spec_forge_display(args) + "`: "@ + e
                + "\n  Is Foundry installed? Run: hara foundry install"@,
        ),
        ExitSpec::Exited(true) => Ok(()),
        ExitSpec::Exited(false) => Err("`"@ + spec_forge_display(args) + "` exited with non-zero status"@),
    }
}

/// The result of running forge with `args`, from how the program ended.
pub fn forge_result(args: &[&str], exit: CommandExit) -> (r: Result<(), String>)
    ensures
        match (r, spec_forge_result(args@.map_values(|a: &str| a@), exit@)) {
            (Ok(()), Ok(())) => true,
            (Err(m), Err(e)) => m@ == e,
            _ => false,
        },
{
    match exit {
        CommandExit::LaunchFailed(e) => {
            let mut m = String::from_str("Failed to launch `");
            let d = forge_display(args);
            m.append(d.as_str());
            m.append("`: ");
            m.append(e.as_str());
            m.append("\n  Is Foundry installed? Run: hara foundry install");
            Err(m)
        },
        CommandExit::Exited(true) => Ok(()),
        CommandExit::Exited(false) => {
            let mut m = String::from_str("`");
            let d = forge_display(args);
            m.append(d.as_str());
            m.append("` exited with non-zero status");
            Err(m)
        },
    }
}

} // verus!
