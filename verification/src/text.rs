use vstd::prelude::*;


verus! {

/// `std::str::from_utf8`, with its error dropped.
/// Trusted: it succeeds exactly on valid UTF-8, and the string it returns has the given bytes.
#[verifier::external_body]
pub(crate) fn utf8_str<'a>(bytes: &'a [u8]) -> (res: Option<&'a str>)
    ensures
        res is Some <==> vstd::utf8::valid_utf8(bytes@),
        res matches Some(s) ==> vstd::utf8::encode_utf8(s@) == bytes@,
{
    std::str::from_utf8(bytes).ok()
}

} // verus!

verus! {

/// What `String::from_utf8_lossy` makes of `bytes`.
pub uninterp spec fn spec_utf8_lossy(bytes: Seq<u8>) -> Seq<char>;

/// `String::from_utf8_lossy`, made owned.
/// Trusted: its text is named `spec_utf8_lossy(bytes@)`, and where the bytes are valid UTF-8
/// the text has exactly those bytes. What replaces invalid sequences is not stated.
#[verifier::external_body]
pub(crate) fn utf8_lossy(bytes: &[u8]) -> (res: String)
    ensures
        res@ == spec_utf8_lossy(bytes@),
        vstd::utf8::valid_utf8(bytes@) ==> vstd::utf8::encode_utf8(res@) == bytes@,
{
    String::from_utf8_lossy(bytes).into_owned()
}

} // verus!

verus! {

/// An ASCII character.
pub open spec fn is_ascii_char(c: char) -> bool {
    (c as u32) < 128
}

/// Every character of `s` is ASCII.
pub open spec fn all_ascii(s: Seq<char>) -> bool {
    forall|i: int| 0 <= i < s.len() ==> is_ascii_char(#[trigger] s[i])
}

/// An ASCII letter or decimal digit.
pub open spec fn is_ascii_alphanumeric(c: char) -> bool {
    let u = c as u32;
    (48 <= u && u <= 57) || (65 <= u && u <= 90) || (97 <= u && u <= 122)
}

/// What `str::to_lowercase` makes of text that is not all ASCII.
pub uninterp spec fn spec_unicode_lowercase(s: Seq<char>) -> Seq<char>;

/// What `str::to_lowercase` makes of `s`: text that is all ASCII has each `A`..`Z` turned
/// into `a`..`z` and every other character kept; other text follows the Unicode case
/// mapping, which is named only.
pub open spec fn spec_to_lowercase(s: Seq<char>) -> Seq<char> {
    if all_ascii(s) {
        s.map_values(|c: char| ascii_lower(c))
    } else {
        spec_unicode_lowercase(s)
    }
}

/// `str::to_lowercase`. Trusted: its result is `spec_to_lowercase(s@)`, whose ASCII part is
/// stated and whose Unicode part is named.
#[verifier::external_body]
pub(crate) fn to_lowercase(s: &str) -> (res: String)
    ensures
        res@ == spec_to_lowercase(s@),
        !all_ascii(s@) ==> res@ == spec_unicode_lowercase(s@),
{
    s.to_lowercase()
}

} // verus!

verus! {

/// Unicode `White_Space`: the whitespace that `str::trim` removes.
pub open spec fn is_white_space(c: char) -> bool {
    let u = c as u32;
    (0x09 <= u && u <= 0x0D) || u == 0x20 || u == 0x85 || u == 0xA0 || u == 0x1680 || (0x2000 <= u
        && u <= 0x200A) || u == 0x2028 || u == 0x2029 || u == 0x202F || u == 0x205F || u == 0x3000
}

/// `s` without its leading whitespace.
pub open spec fn spec_trim_start(s: Seq<char>) -> Seq<char>
    decreases s.len(),
{
    if s.len() > 0 && is_white_space(s[0]) {
        spec_trim_start(s.drop_first())
    } else {
        s
    }
}

/// `s` without its trailing whitespace.
pub open spec fn spec_trim_end(s: Seq<char>) -> Seq<char>
    decreases s.len(),
{
    if s.len() > 0 && is_white_space(s.last()) {
        spec_trim_end(s.drop_last())
    } else {
        s
    }
}

/// `s` without leading and trailing whitespace, as `str::trim` gives it.
pub open spec fn spec_trim(s: Seq<char>) -> Seq<char> {
    spec_trim_end(spec_trim_start(s))
}

fn char_is_white_space(c: char) -> (b: bool)
    ensures
        b == is_white_space(c),
{
    let u = c as u32;
    (0x09 <= u && u <= 0x0D) || u == 0x20 || u == 0x85 || u == 0xA0 || u == 0x1680 || (0x2000 <= u
        && u <= 0x200A) || u == 0x2028 || u == 0x2029 || u == 0x202F || u == 0x205F || u == 0x3000
}

proof fn lemma_trim_start_skip(s: Seq<char>, k: int)
    requires
        0 <= k <= s.len(),
        forall|j: int| 0 <= j < k ==> is_white_space(#[trigger] s[j]),
        k == s.len() || !is_white_space(s[k]),
    ensures
        spec_trim_start(s) == s.skip(k),
    decreases k,
{
    if k == 0 {
        assert(s.skip(0) =~= s);
    } else {
        assert(is_white_space(s[0]));
        let t = s.drop_first();
        assert forall|j: int| 0 <= j < k - 1 implies is_white_space(#[trigger] t[j]) by {
            assert(t[j] == s[j + 1]);
        }
        lemma_trim_start_skip(t, k - 1);
        assert(t.skip(k - 1) =~= s.skip(k));
    }
}

proof fn lemma_trim_end_take(s: Seq<char>, k: int)
    requires
        0 <= k <= s.len(),
        forall|j: int| k <= j < s.len() ==> is_white_space(#[trigger] s[j]),
        k == 0 || !is_white_space(s[k - 1]),
    ensures
        spec_trim_end(s) == s.take(k),
    decreases s.len() - k,
{
    if k == s.len() {
        assert(s.take(k) =~= s);
    } else {
        assert(is_white_space(s.last()));
        let t = s.drop_last();
        lemma_trim_end_take(t, k);
        assert(t.take(k) =~= s.take(k));
    }
}

/// `str::trim`: `s` without leading and trailing Unicode whitespace.
pub fn trim(s: &str) -> (r: &str)
    ensures
        r@ == spec_trim(s@),
{
    let n = s.unicode_len();
    let mut i: usize = 0;
    while i < n && char_is_white_space(s.get_char(i))
        invariant
            n == s@.len(),
            i <= n,
            forall|j: int| 0 <= j < i ==> is_white_space(#[trigger] s@[j]),
        decreases n - i,
    {
        i = i + 1;
    }
    proof {
        lemma_trim_start_skip(s@, i as int);
    }
    let ghost t = s@.skip(i as int);
    let mut j: usize = n;
    while j > i && char_is_white_space(s.get_char(j - 1))
        invariant
            n == s@.len(),
            i <= j <= n,
            t == s@.skip(i as int),
            forall|k: int| j <= k < n ==> is_white_space(#[trigger] s@[k]),
        decreases j - i,
    {
        j = j - 1;
    }
    proof {
        assert forall|k: int| j - i <= k < t.len() implies is_white_space(#[trigger] t[k]) by {
            assert(t[k] == s@[k + i]);
        }
        if j > i {
            assert(t[j - i - 1] == s@[j - 1]);
        }
        lemma_trim_end_take(t, j - i);
        assert(t.take(j - i) =~= s@.subrange(i as int, j as int));
    }
    s.substring_char(i, j)
}

/// `s` with every trailing copy of `p` removed, as `str::trim_end_matches` does.
pub open spec fn spec_trim_end_matches(s: Seq<char>, p: Seq<char>) -> Seq<char>
    decreases s.len(),
{
    if p.len() > 0 && p.len() <= s.len() && s.subrange(s.len() - p.len(), s.len() as int) == p {
        spec_trim_end_matches(s.subrange(0, s.len() - p.len()), p)
    } else {
        s
    }
}

/// Whether `s[from..from + p.len()]` spells `p`.
pub fn matches_at(s: &str, from: usize, p: &str) -> (b: bool)
    requires
        from + p@.len() <= s@.len(),
    ensures
        b == (s@.subrange(from as int, from + p@.len()) == p@),
{
    let _n = s.unicode_len();
    let m = p.unicode_len();
    let mut k: usize = 0;
    while k < m
        invariant
            m == p@.len(),
            from + m <= s@.len(),
            s@.len() <= usize::MAX,
            k <= m,
            forall|j: int| 0 <= j < k ==> s@[from + j] == #[trigger] p@[j],
        decreases m - k,
    {
        if s.get_char(from + k) != p.get_char(k) {
            assert(s@.subrange(from as int, from + p@.len())[k as int] != p@[k as int]);
            return false;
        }
        k = k + 1;
    }
    assert(s@.subrange(from as int, from + p@.len()) =~= p@);
    true
}

/// `str::trim_end_matches` with a string pattern: `s` with every trailing copy of `p` removed.
pub fn trim_end_matches<'a>(s: &'a str, p: &str) -> (r: &'a str)
    ensures
        r@ == spec_trim_end_matches(s@, p@),
{
    let m = p.unicode_len();
    let mut end = s.unicode_len();
    assert(s@.take(end as int) =~= s@);
    if m == 0 {
        return s.substring_char(0, end);
    }
    while m <= end && matches_at(s, end - m, p)
        invariant
            m == p@.len(),
            m > 0,
            end <= s@.len(),
            spec_trim_end_matches(s@.take(end as int), p@) == spec_trim_end_matches(s@, p@),
        decreases end,
    {
        proof {
            let t = s@.take(end as int);
            assert(t.subrange(t.len() - m, t.len() as int) =~= s@.subrange(end - m, end as int));
            assert(t.subrange(0, t.len() - m) =~= s@.take(end - m));
        }
        end = end - m;
    }
    proof {
        let t = s@.take(end as int);
        if m <= end {
            assert(t.subrange(t.len() - m, t.len() as int) =~= s@.subrange(end - m, end as int));
        }
        assert(s@.take(s@.len() as int) =~= s@);
    }
    let r = s.substring_char(0, end);
    assert(r@ =~= s@.take(end as int));
    r
}

/// `s` with every leading copy of `p` removed, as `str::trim_start_matches` does.
pub open spec fn spec_trim_start_matches(s: Seq<char>, p: Seq<char>) -> Seq<char>
    decreases s.len(),
{
    if p.len() > 0 && p.len() <= s.len() && s.take(p.len() as int) == p {
        spec_trim_start_matches(s.skip(p.len() as int), p)
    } else {
        s
    }
}

/// `str::trim_start_matches` with a string pattern: `s` with every leading copy of `p`
/// removed.
pub fn trim_start_matches<'a>(s: &'a str, p: &str) -> (r: &'a str)
    ensures
        r@ == spec_trim_start_matches(s@, p@),
{
    let m = p.unicode_len();
    let n = s.unicode_len();
    let mut start: usize = 0;
    assert(s@.skip(0) =~= s@);
    if m == 0 {
        return s.substring_char(0, n);
    }
    while m <= n - start && matches_at(s, start, p)
        invariant
            m == p@.len(),
            m > 0,
            n == s@.len(),
            start <= n,
            spec_trim_start_matches(s@.skip(start as int), p@) == spec_trim_start_matches(s@, p@),
        decreases n - start,
    {
        proof {
            let t = s@.skip(start as int);
            assert(t.take(m as int) =~= s@.subrange(start as int, start + m));
            assert(t.skip(m as int) =~= s@.skip(start + m));
        }
        start = start + m;
    }
    proof {
        let t = s@.skip(start as int);
        if m <= n - start {
            assert(t.take(m as int) =~= s@.subrange(start as int, start + m));
        }
    }
    let r = s.substring_char(start, n);
    assert(r@ =~= s@.skip(start as int));
    r
}

/// What `char::is_alphanumeric` says of a character that is not ASCII.
pub uninterp spec fn spec_unicode_alphanumeric(c: char) -> bool;

/// What `char::is_alphanumeric` says of `c`: an ASCII character is alphanumeric exactly when
/// it is a letter or a decimal digit; for other characters the Unicode Alphabetic and
/// Numeric properties decide, which are named only.
pub open spec fn spec_is_alphanumeric(c: char) -> bool {
    if is_ascii_char(c) {
        is_ascii_alphanumeric(c)
    } else {
        spec_unicode_alphanumeric(c)
    }
}

/// `char::is_alphanumeric`. Trusted: its answer is `spec_is_alphanumeric(c)`.
#[verifier::external_body]
pub(crate) fn is_alphanumeric(c: char) -> (b: bool)
    ensures
        b == spec_is_alphanumeric(c),
        !is_ascii_char(c) ==> b == spec_unicode_alphanumeric(c),
{
    c.is_alphanumeric()
}

/// `String::push`. Trusted: the character is appended.
#[verifier::external_body]
pub(crate) fn push_char(s: &mut String, c: char)
    ensures
        final(s)@ == old(s)@.push(c),
{
    s.push(c);
}

} // verus!

verus! {

/// The index of the last `c` in `s`, or -1 where there is none.
pub open spec fn spec_rfind(s: Seq<char>, c: char) -> int
    decreases s.len(),
{
    if s.len() == 0 {
        -1
    } else if s.last() == c {
        s.len() - 1
    } else {
        spec_rfind(s.drop_last(), c)
    }
}

/// `spec_rfind` finds `c` at its index, and no `c` after it.
pub proof fn lemma_rfind(s: Seq<char>, c: char)
    ensures
        -1 <= spec_rfind(s, c) < s.len(),
        spec_rfind(s, c) >= 0 ==> s[spec_rfind(s, c)] == c,
        forall|j: int| spec_rfind(s, c) < j < s.len() ==> s[j] != c,
    decreases s.len(),
{
    if s.len() > 0 && s.last() != c {
        lemma_rfind(s.drop_last(), c);
        assert forall|j: int| spec_rfind(s, c) < j < s.len() implies s[j] != c by {
            if j < s.len() - 1 {
                assert(s[j] == s.drop_last()[j]);
            }
        }
    }
}

/// `str::rfind` of a character, counted in characters.
pub fn rfind(s: &str, c: char) -> (r: Option<usize>)
    ensures
        match r {
            Some(i) => i == spec_rfind(s@, c),
            None => spec_rfind(s@, c) == -1,
        },
{
    let n = s.unicode_len();
    let mut i: usize = n;
    assert(s@.take(n as int) =~= s@);
    while i > 0
        invariant
            n == s@.len(),
            i <= n,
            spec_rfind(s@.take(i as int), c) == spec_rfind(s@, c),
        decreases i,
    {
        assert(s@.take(i as int).last() == s@[i - 1]);
        assert(s@.take(i as int).drop_last() =~= s@.take(i - 1));
        if s.get_char(i - 1) == c {
            return Some(i - 1);
        }
        i = i - 1;
    }
    None
}

/// The stem of a file name, as `Path::file_stem` takes it: the name before its last `.`,
/// unless that `.` is the first character or there is none, where it is the whole name.
pub open spec fn spec_stem_of_name(name: Seq<char>) -> Seq<char> {
    let p = spec_rfind(name, '.');
    if p > 0 {
        name.take(p)
    } else {
        name
    }
}

/// A path of one plain component: not empty, not `.` or `..`, with no `/` or `\\`
/// separator and no `:` (which could start a Windows prefix).
pub open spec fn spec_single_component(path: Seq<char>) -> bool {
    &&& path.len() > 0
    &&& path != "."@
    &&& path != ".."@
    &&& !path.contains('/')
    &&& !path.contains('\\')
    &&& !path.contains(':')
}

/// The last component of a path of more than one plain component, as `Path::file_name`
/// gives it.
pub uninterp spec fn spec_path_file_name(path: Seq<char>) -> Option<Seq<char>>;

/// The last component of a path, as `Path::file_name` gives it: a path of one plain
/// component is its own file name; how other paths split is named only.
pub open spec fn spec_file_name(path: Seq<char>) -> Option<Seq<char>> {
    if spec_single_component(path) {
        Some(path)
    } else {
        spec_path_file_name(path)
    }
}

/// `Path::file_name` of a path given as text. Trusted: its result is `spec_file_name(path@)`.
#[verifier::external_body]
pub(crate) fn file_name(path: &str) -> (r: Option<String>)
    ensures
        match r {
            Some(n) => spec_file_name(path@) == Some(n@),
            None => spec_file_name(path@) is None,
        },
        !spec_single_component(path@) ==> match r {
            Some(n) => spec_path_file_name(path@) == Some(n@),
            None => spec_path_file_name(path@) is None,
        },
{
    match std::path::Path::new(path).file_name() {
        Some(n) => Some(n.to_string_lossy().into_owned()),
        None => None,
    }
}

/// The stem of a path, as `Path::file_stem` gives it.
pub open spec fn spec_file_stem(path: Seq<char>) -> Option<Seq<char>> {
    match spec_file_name(path) {
        Some(n) => Some(spec_stem_of_name(n)),
        None => None,
    }
}

/// `Path::file_stem` of a path given as text: the file name without its extension.
pub fn file_stem(path: &str) -> (r: Option<String>)
    ensures
        match r {
            Some(s) => spec_file_stem(path@) == Some(s@),
            None => spec_file_stem(path@) is None,
        },
{
    let name = match file_name(path) {
        Some(n) => n,
        None => return None,
    };
    match rfind(name.as_str(), '.') {
        Some(p) => {
            if p > 0 {
                proof {
                    lemma_rfind(name@, '.');
                }
                let stem = name.as_str().substring_char(0, p);
                Some(String::from_str(stem))
            } else {
                Some(name)
            }
        },
        None => Some(name),
    }
}

} // verus!

verus! {

/// Whether two strings are equal.
pub fn str_eq(a: &str, b: &str) -> (r: bool)
    ensures
        r == (a@ == b@),
{
    let n = a.unicode_len();
    let m = b.unicode_len();
    if n != m {
        return false;
    }
    assert(a@.subrange(0, n as int) =~= a@);
    matches_at(a, 0, b)
}

/// `str::starts_with` with a string pattern.
pub fn starts_with(s: &str, p: &str) -> (r: bool)
    ensures
        r == (p@.len() <= s@.len() && s@.take(p@.len() as int) == p@),
{
    let n = s.unicode_len();
    let m = p.unicode_len();
    if m > n {
        return false;
    }
    matches_at(s, 0, p)
}

/// `str::ends_with` with a character pattern.
pub fn ends_with_char(s: &str, c: char) -> (r: bool)
    ensures
        r == (s@.len() > 0 && s@.last() == c),
{
    let n = s.unicode_len();
    n > 0 && s.get_char(n - 1) == c
}

} // verus!

verus! {

/// Trimming never lengthens a string.
pub proof fn lemma_trim_len(s: Seq<char>)
    ensures
        spec_trim(s).len() <= s.len(),
{
    lemma_trim_start_len(s);
    lemma_trim_end_len(spec_trim_start(s));
}

proof fn lemma_trim_start_len(s: Seq<char>)
    ensures
        spec_trim_start(s).len() <= s.len(),
    decreases s.len(),
{
    if s.len() > 0 && is_white_space(s[0]) {
        lemma_trim_start_len(s.drop_first());
    }
}

proof fn lemma_trim_end_len(s: Seq<char>)
    ensures
        spec_trim_end(s).len() <= s.len(),
    decreases s.len(),
{
    if s.len() > 0 && is_white_space(s.last()) {
        lemma_trim_end_len(s.drop_last());
    }
}

} // verus!

verus! {

/// The path that `Path::with_file_name` makes of `path` and `name` where either has more
/// than one plain component.
pub uninterp spec fn spec_path_with_file_name(path: Seq<char>, name: Seq<char>) -> Seq<char>;

/// The path that `Path::with_file_name` makes of `path` and `name`: where both are one plain
/// component, the file name is replaced and nothing else is left, so the result is `name`;
/// other cases are named only.
pub open spec fn spec_with_file_name(path: Seq<char>, name: Seq<char>) -> Seq<char> {
    if spec_single_component(path) && spec_single_component(name) {
        name
    } else {
        spec_path_with_file_name(path, name)
    }
}

/// `Path::with_file_name` of a path given as text. Trusted: its result is
/// `spec_with_file_name(path@, name@)`.
#[verifier::external_body]
pub(crate) fn with_file_name(path: &str, name: &str) -> (r: String)
    ensures
        r@ == spec_with_file_name(path@, name@),
        !(spec_single_component(path@) && spec_single_component(name@)) ==> r@ == spec_path_with_file_name(
            path@,
            name@,
        ),
{
    std::path::Path::new(path).with_file_name(name).to_string_lossy().into_owned()
}

/// The extension of a file name, as `Path::extension` takes it: what follows its last `.`,
/// unless that `.` is the first character or there is none.
pub open spec fn spec_extension_of_name(name: Seq<char>) -> Option<Seq<char>> {
    let p = spec_rfind(name, '.');
    if p > 0 {
        Some(name.skip(p + 1))
    } else {
        None
    }
}

/// `Path::extension` of a path given as text.
pub fn extension(path: &str) -> (r: Option<String>)
    ensures
        match r {
            Some(e) => spec_file_name(path@) matches Some(n) && spec_extension_of_name(n) == Some(e@),
            None => spec_file_name(path@) matches Some(n) ==> spec_extension_of_name(n) is None,
        },
{
    let name = match file_name(path) {
        Some(n) => n,
        None => return None,
    };
    proof {
        lemma_rfind(name@, '.');
    }
    match rfind(name.as_str(), '.') {
        Some(p) => {
            if p > 0 {
                let n = name.as_str().unicode_len();
                let e = name.as_str().substring_char(p + 1, n);
                Some(String::from_str(e))
            } else {
                None
            }
        },
        None => None,
    }
}

/// The ASCII lowercase of a character; other characters are kept.
pub open spec fn ascii_lower(c: char) -> char {
    if 65 <= (c as u32) && (c as u32) <= 90 {
        ((c as u32) + 32) as char
    } else {
        c
    }
}

/// `str::eq_ignore_ascii_case`: equal after lowercasing ASCII letters.
pub open spec fn spec_eq_ignore_ascii_case(a: Seq<char>, b: Seq<char>) -> bool {
    a.len() == b.len() && forall|i: int| 0 <= i < a.len() ==> ascii_lower(#[trigger] a[i]) == ascii_lower(b[i])
}

fn ascii_lower_exec(c: char) -> (r: u32)
    ensures
        r == ascii_lower(c) as u32,
{
    let u = c as u32;
    if 65 <= u && u <= 90 {
        u + 32
    } else {
        u
    }
}

/// `str::eq_ignore_ascii_case`.
pub fn eq_ignore_ascii_case(a: &str, b: &str) -> (r: bool)
    ensures
        r == spec_eq_ignore_ascii_case(a@, b@),
{
    let n = a.unicode_len();
    if n != b.unicode_len() {
        return false;
    }
    let mut i: usize = 0;
    while i < n
        invariant
            n == a@.len(),
            n == b@.len(),
            i <= n,
            forall|j: int| 0 <= j < i ==> ascii_lower(#[trigger] a@[j]) == ascii_lower(b@[j]),
        decreases n - i,
    {
        let x = ascii_lower_exec(a.get_char(i));
        let y = ascii_lower_exec(b.get_char(i));
        if x != y {
            proof {
                let ca = a@[i as int];
                let cb = b@[i as int];
                assert(ascii_lower(ca) as u32 != ascii_lower(cb) as u32);
            }
            return false;
        }
        proof {
            let ca = a@[i as int];
            let cb = b@[i as int];
            vstd::utf8::char_u32_cast(ascii_lower(ca), x);
            vstd::utf8::char_u32_cast(ascii_lower(cb), y);
        }
        i = i + 1;
    }
    true
}

/// `str::ends_with` with a string pattern.
pub fn ends_with(s: &str, p: &str) -> (r: bool)
    ensures
        r == (p@.len() <= s@.len() && s@.skip(s@.len() - p@.len()) == p@),
{
    let n = s.unicode_len();
    let m = p.unicode_len();
    if m > n {
        return false;
    }
    let r = matches_at(s, n - m, p);
    assert(s@.subrange(n - m, n - m + p@.len()) =~= s@.skip(s@.len() - p@.len()));
    r
}

} // verus!

verus! {

/// The path that `Path::with_extension` makes of `path` and `ext`.
pub uninterp spec fn spec_with_extension(path: Seq<char>, ext: Seq<char>) -> Seq<char>;

/// `Path::with_extension` of a path given as text. Trusted: its result is named
/// `spec_with_extension(path@, ext@)`. The extension holds no path separator: std panics
/// on one.
#[verifier::external_body]
pub(crate) fn with_extension(path: &str, ext: &str) -> (r: String)
    requires
        !ext@.contains('/'),
        !ext@.contains('\\'),
    ensures
        r@ == spec_with_extension(path@, ext@),
{
    std::path::Path::new(path).with_extension(ext).to_string_lossy().into_owned()
}

/// `s` with every occurrence of `from`, taken left to right without overlap, replaced by
/// `to`, as `str::replace` does for a non-empty pattern.
pub open spec fn spec_replace(s: Seq<char>, from: Seq<char>, to: Seq<char>) -> Seq<char>
    decreases s.len(),
{
    if from.len() == 0 || s.len() < from.len() {
        s
    } else if s.take(from.len() as int) == from {
        to + spec_replace(s.skip(from.len() as int), from, to)
    } else {
        seq![s[0]] + spec_replace(s.skip(1), from, to)
    }
}

/// `str::replace` with a non-empty string pattern.
pub fn replace(s: &str, from: &str, to: &str) -> (r: String)
    requires
        from@.len() > 0,
    ensures
        r@ == spec_replace(s@, from@, to@),
{
    let n = s.unicode_len();
    let m = from.unicode_len();
    let mut out = String::new();
    let mut i: usize = 0;
    assert(s@.skip(0) =~= s@);
    while i < n
        invariant
            n == s@.len(),
            m == from@.len(),
            m > 0,
            i <= n,
            out@ + spec_replace(s@.skip(i as int), from@, to@) == spec_replace(s@, from@, to@),
        decreases n - i,
    {
        let ghost rest = s@.skip(i as int);
        if m <= n - i && matches_at(s, i, from) {
            assert(rest.take(m as int) =~= s@.subrange(i as int, i + m));
            assert(rest.skip(m as int) =~= s@.skip(i + m));
            out.append(to);
            assert(out@ + spec_replace(s@.skip(i + m), from@, to@) =~= spec_replace(s@, from@, to@));
            i = i + m;
        } else {
            if m <= n - i {
                assert(rest.take(m as int) =~= s@.subrange(i as int, i + m));
            }
            assert(rest.skip(1) =~= s@.skip(i + 1));
            let c = s.get_char(i);
            assert(rest[0] == c);
            push_char(&mut out, c);
            assert(out@ + spec_replace(s@.skip(i + 1), from@, to@) =~= spec_replace(s@, from@, to@));
            i = i + 1;
        }
    }
    assert(s@.skip(n as int) =~= Seq::<char>::empty());
    assert(out@ =~= spec_replace(s@, from@, to@));
    out
}

} // verus!
