use vstd::prelude::*;

verus! {

/// The Git Bash locations tried, in order.
pub open spec fn spec_git_bash_candidate(i: int) -> Seq<char> {
    if i == 0 {
        "C:\\Program Files\\Git\\bin\\bash.exe"@
    } else if i == 1 {
        "C:\\Program Files\\Git\\usr\\bin\\bash.exe"@
    } else if i == 2 {
        "C:\\Program Files (x86)\\Git\\bin\\bash.exe"@
    } else {
        "C:\\Program Files (x86)\\Git\\usr\\bin\\bash.exe"@
    }
}

/// The number of Git Bash locations tried.
pub open spec fn spec_candidate_count() -> int {
    4
}

/// The `i`-th Git Bash location tried, for `i` below four.
pub fn git_bash_candidate(i: usize) -> (r: Option<&'static str>)
    ensures
        match r {
            Some(s) => i < spec_candidate_count() && s@ == spec_git_bash_candidate(i as int),
            None => i >= spec_candidate_count(),
        },
{
    if i == 0 {
        Some("C:\\Program Files\\Git\\bin\\bash.exe")
    } else if i == 1 {
        Some("C:\\Program Files\\Git\\usr\\bin\\bash.exe")
    } else if i == 2 {
        Some("C:\\Program Files (x86)\\Git\\bin\\bash.exe")
    } else if i == 3 {
        Some("C:\\Program Files (x86)\\Git\\usr\\bin\\bash.exe")
    } else {
        None
    }
}

/// The first candidate from the `i`-th on that `exists` marks as present, else `bash`.
pub open spec fn spec_shell_from(exists: Seq<bool>, i: int) -> Seq<char>
    decreases spec_candidate_count() - i,
{
    if i >= spec_candidate_count() || i >= exists.len() || i < 0 {
        "bash"@
    } else if exists[i] {
        spec_git_bash_candidate(i)
    } else {
        spec_shell_from(exists, i + 1)
    }
}

/// The shell to run: the first Git Bash location that exists (`exists[i]` tells whether
/// the `i`-th does), else plain `bash`.
pub fn which_shell(exists: &[bool]) -> (s: String)
    ensures
        s@ == spec_shell_from(exists@, 0),
{
    let mut i: usize = 0;
    while i < 4 && i < exists.len()
        invariant
            i <= 4,
            spec_shell_from(exists@, i as int) == spec_shell_from(exists@, 0),
        decreases 4 - i,
    {
        if exists[i] {
            match git_bash_candidate(i) {
                Some(c) => return String::from_str(c),
                None => {},
            }
        }
        i = i + 1;
    }
    String::from_str("bash")
}

} // verus!
