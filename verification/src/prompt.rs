use vstd::prelude::*;
use crate::text;

verus! {

/// One line of the reset warning per directory: `   - <dir>/`.
pub open spec fn spec_dir_lines(dirs: Seq<Seq<char>>) -> Seq<char>
    decreases dirs.len(),
{
    if dirs.len() == 0 {
        Seq::empty()
    } else {
        spec_dir_lines(dirs.drop_last()) + "   - "@ + dirs.last() + "/\n"@
    }
}

/// The warning shown before directories are reset, ending with the question.
pub open spec fn spec_reset_prompt(dirs: Seq<Seq<char>>) -> Seq<char> {
    "\u{26a0}\u{fe0f}  WARNING: You are about to RESET the following directories:\n"@ + spec_dir_lines(dirs)
        + "   All files inside these directories will be PERMANENTLY DELETED.\n"@
        + "Do you want to reset? (y/N): "@
}

/// The text written to ask whether `dirs` should be reset.
pub fn reset_prompt(dirs: &[&str]) -> (s: String)
    ensures
        s@ == spec_reset_prompt(dirs@.map_values(|d: &str| d@)),
{
    let ghost ds = dirs@.map_values(|d: &str| d@);
    let mut s = String::from_str("\u{26a0}\u{fe0f}  WARNING: You are about to RESET the following directories:\n");
    let ghost start = s@;
    let mut i: usize = 0;
    while i < dirs.len()
        invariant
            i <= dirs@.len(),
            ds == dirs@.map_values(|d: &str| d@),
            s@ == start + spec_dir_lines(ds.take(i as int)),
        decreases dirs@.len() - i,
    {
        s.append("   - ");
        s.append(dirs[i]);
        s.append("/\n");
        proof {
            let t = ds.take(i + 1);
            assert(t.drop_last() =~= ds.take(i as int));
            assert(t.last() == dirs@[i as int]@);
        }
        i = i + 1;
    }
    assert(ds.take(dirs@.len() as int) =~= ds);
    s.append("   All files inside these directories will be PERMANENTLY DELETED.\n");
    s.append("Do you want to reset? (y/N): ");
    s
}

/// An answer that agrees: after trimming and lowercasing, `y` or `yes`.
pub open spec fn spec_is_yes(line: Seq<char>) -> bool {
    let a = text::spec_to_lowercase(text::spec_trim(line));
    a == "y"@ || a == "yes"@
}

/// Whether the reply to the reset question agrees to the reset. `None` stands for a reply
/// that could not be read, which refuses.
pub fn ask_reset_internal(reply: Option<&str>) -> (b: bool)
    ensures
        b == match reply {
            None => false,
            Some(line) => spec_is_yes(line@),
        },
{
    match reply {
        None => false,
        Some(line) => is_yes(line),
    }
}

/// Whether an answer agrees: `y` or `yes`, in any case, with blanks around it.
pub fn is_yes(line: &str) -> (b: bool)
    ensures
        b == spec_is_yes(line@),
{
    let a = text::to_lowercase(text::trim(line));
    a == String::from_str("y") || a == String::from_str("yes")
}

} // verus!
