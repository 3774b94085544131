use vstd::prelude::*;
use crate::text;

verus! {

/// Whether one of the `\n`-separated segments of `s`, trimmed, equals `entry`.
pub open spec fn spec_segments_have(s: Seq<char>, entry: Seq<char>) -> bool
    decreases s.len(),
{
    let p = text::spec_rfind(s, '\n');
    if p < 0 {
        text::spec_trim(s) == entry
    } else {
        proof {
            text::lemma_rfind(s, '\n');
        }
        text::spec_trim(s.skip(p + 1)) == entry || spec_segments_have(s.take(p), entry)
    }
}

/// Whether one of the lines of `s` (as `str::lines` splits it), trimmed, equals `entry`.
pub open spec fn spec_has_line(s: Seq<char>, entry: Seq<char>) -> bool {
    if s.len() == 0 {
        false
    } else if s.last() == '\n' {
        spec_segments_have(s.drop_last(), entry)
    } else {
        spec_segments_have(s, entry)
    }
}

fn segments_have(s: &str, entry: &str) -> (b: bool)
    ensures
        b == spec_segments_have(s@, entry@),
    decreases s@.len(),
{
    let n = s.unicode_len();
    match text::rfind(s, '\n') {
        None => text::str_eq(text::trim(s), entry),
        Some(p) => {
            proof {
                text::lemma_rfind(s@, '\n');
            }
            let last = s.substring_char(p + 1, n);
            if text::str_eq(text::trim(last), entry) {
                true
            } else {
                let before = s.substring_char(0, p);
                segments_have(before, entry)
            }
        },
    }
}

/// Whether `.gitignore` text already holds `entry` on a line of its own (spaces around ignored).
pub fn has_line(s: &str, entry: &str) -> (b: bool)
    ensures
        b == spec_has_line(s@, entry@),
{
    let n = s.unicode_len();
    if n == 0 {
        false
    } else if s.get_char(n - 1) == '\n' {
        segments_have(s.substring_char(0, n - 1), entry)
    } else {
        segments_have(s, entry)
    }
}

/// The `.gitignore` text with `entry` appended on a line of its own, after a newline where
/// the text does not end with one; nothing where the entry is already there.
pub open spec fn spec_with_entry(existing: Seq<char>, entry: Seq<char>) -> Option<Seq<char>> {
    if spec_has_line(existing, entry) {
        None
    } else if existing.len() > 0 && existing.last() != '\n' {
        Some(existing + "\n"@ + entry + "\n"@)
    } else {
        Some(existing + entry + "\n"@)
    }
}

/// The new `.gitignore` text that adds `entry`, or nothing where it is already listed.
pub fn gitignore_with_entry(existing: &str, entry: &str) -> (r: Option<String>)
    ensures
        match r {
            Some(t) => spec_with_entry(existing@, entry@) == Some(t@),
            None => spec_with_entry(existing@, entry@) is None,
        },
{
    if has_line(existing, entry) {
        return None;
    }
    let n = existing.unicode_len();
    let mut content = String::from_str(existing);
    if n > 0 && existing.get_char(n - 1) != '\n' {
        content.append("\n");
    }
    content.append(entry);
    content.append("\n");
    Some(content)
}

} // verus!

verus! {

proof fn lemma_rfind_suffix_free(x: Seq<char>, e: Seq<char>, c: char)
    requires
        !e.contains(c),
    ensures
        text::spec_rfind(x + e, c) == text::spec_rfind(x, c),
    decreases e.len(),
{
    if e.len() == 0 {
        assert(x + e =~= x);
    } else {
        assert((x + e).drop_last() =~= x + e.drop_last());
        assert((x + e).last() == e.last());
        assert(e.drop_last().contains(c) ==> e.contains(c)) by {
            if e.drop_last().contains(c) {
                let k = choose|k: int| 0 <= k < e.drop_last().len() && e.drop_last()[k] == c;
                assert(e[k] == c);
            }
        }
        lemma_rfind_suffix_free(x, e.drop_last(), c);
    }
}

/// Adding an entry twice changes nothing the second time: once `entry` (a single line
/// without surrounding spaces) has been appended, the text already holds it.
pub proof fn law_gitignore_entry_idempotent(existing: Seq<char>, entry: Seq<char>)
    requires
        !entry.contains('\n'),
        text::spec_trim(entry) == entry,
    ensures
        spec_with_entry(existing, entry) matches Some(t) ==> spec_with_entry(t, entry) is None,
{
    reveal_strlit("\n");
    if let Some(t) = spec_with_entry(existing, entry) {
        let pre = if existing.len() > 0 && existing.last() != '\n' {
            existing + "\n"@
        } else {
            existing
        };
        assert(t == pre + entry + "\n"@);
        assert(t.last() == '\n');
        assert(t.drop_last() =~= pre + entry);
        lemma_rfind_suffix_free(pre, entry, '\n');
        if pre.len() == 0 {
            assert(pre + entry =~= entry);
            assert(text::spec_rfind(pre, '\n') == -1);
        } else {
            assert(pre.last() == '\n');
            assert(text::spec_rfind(pre, '\n') == pre.len() - 1);
            assert((pre + entry).skip(pre.len() as int) =~= entry);
        }
    }
}

} // verus!
