use vstd::prelude::*;
use crate::text;

verus! {

/// The `.env` line that sets `key` to `value`.
pub open spec fn spec_env_entry(key: Seq<char>, value: Seq<char>) -> Seq<char> {
    key + "="@ + value
}

/// A line that sets `key`: the text before its first `=` is the key, that is, the line is
/// the key, an `=`, then anything, and the key holds no `=`.
pub open spec fn is_key_line(line: Seq<char>, key: Seq<char>) -> bool {
    &&& key.len() < line.len()
    &&& line.take(key.len() as int) == key
    &&& line[key.len() as int] == '='
    &&& !key.contains('=')
}

/// The lines of `.env` after setting `key`: every line that sets it is replaced by
/// `key=value`; where none does, `key=value` is appended.
pub open spec fn spec_update_env(lines: Seq<Seq<char>>, key: Seq<char>, value: Seq<char>) -> Seq<Seq<char>> {
    let replaced = Seq::new(
        lines.len(),
        |i: int| if is_key_line(lines[i], key) {
            spec_env_entry(key, value)
        } else {
            lines[i]
        },
    );
    if exists|i: int| 0 <= i < lines.len() && is_key_line(#[trigger] lines[i], key) {
        replaced
    } else {
        replaced.push(spec_env_entry(key, value))
    }
}

/// Whether `s` holds the character `c`.
fn contains_char(s: &str, c: char) -> (b: bool)
    ensures
        b == s@.contains(c),
{
    let n = s.unicode_len();
    let mut i: usize = 0;
    while i < n
        invariant
            n == s@.len(),
            i <= n,
            forall|j: int| 0 <= j < i ==> s@[j] != c,
        decreases n - i,
    {
        if s.get_char(i) == c {
            return true;
        }
        i = i + 1;
    }
    false
}

/// The lines of a `.env` file after setting `key` to `value`.
pub fn update_env_lines(lines: &Vec<String>, key: &str, value: &str) -> (out: Vec<String>)
    ensures
        out@.map_values(|l: String| l@) == spec_update_env(lines@.map_values(|l: String| l@), key@, value@),
{
    let ghost ls = lines@.map_values(|l: String| l@);
    let ghost entry = spec_env_entry(key@, value@);
    let ghost replaced = Seq::new(
        ls.len(),
        |i: int| if is_key_line(ls[i], key@) {
            entry
        } else {
            ls[i]
        },
    );
    let mut out: Vec<String> = Vec::new();
    let mut found = false;
    let mut i: usize = 0;
    while i < lines.len()
        invariant
            i <= lines@.len(),
            ls == lines@.map_values(|l: String| l@),
            entry == spec_env_entry(key@, value@),
            replaced.len() == ls.len(),
            forall|j: int| 0 <= j < ls.len() ==> #[trigger] replaced[j] == if is_key_line(ls[j], key@) {
                entry
            } else {
                ls[j]
            },
            out@.len() == i,
            forall|j: int| 0 <= j < i ==> (#[trigger] out@[j])@ == replaced[j],
            found == exists|j: int| 0 <= j < i && is_key_line(#[trigger] ls[j], key@),
        decreases lines@.len() - i,
    {
        let line = lines[i].as_str();
        let is_key = text::starts_with(line, key) && line.unicode_len() > key.unicode_len()
            && line.get_char(key.unicode_len()) == '=' && !contains_char(key, '=');
        assert(is_key == is_key_line(ls[i as int], key@));
        if is_key {
            let mut e = String::from_str(key);
            e.append("=");
            e.append(value);
            out.push(e);
            found = true;
        } else {
            out.push(String::from_str(line));
        }
        i = i + 1;
    }
    if !found {
        let mut e = String::from_str(key);
        e.append("=");
        e.append(value);
        out.push(e);
    }
    proof {
        let target = spec_update_env(ls, key@, value@);
        assert(out@.map_values(|l: String| l@) =~= target);
    }
    out
}

/// The text of a `.env` file: every line followed by a newline.
pub open spec fn spec_env_text(lines: Seq<Seq<char>>) -> Seq<char>
    decreases lines.len(),
{
    if lines.len() == 0 {
        Seq::empty()
    } else {
        spec_env_text(lines.drop_last()) + lines.last() + "\n"@
    }
}

/// The text of a `.env` file with the given lines.
pub fn env_text(lines: &Vec<String>) -> (s: String)
    ensures
        s@ == spec_env_text(lines@.map_values(|l: String| l@)),
{
    let ghost ls = lines@.map_values(|l: String| l@);
    let mut s = String::new();
    let mut i: usize = 0;
    while i < lines.len()
        invariant
            i <= lines@.len(),
            ls == lines@.map_values(|l: String| l@),
            s@ == spec_env_text(ls.take(i as int)),
        decreases lines@.len() - i,
    {
        s.append(lines[i].as_str());
        s.append("\n");
        proof {
            let t = ls.take(i + 1);
            assert(t.drop_last() =~= ls.take(i as int));
            assert(t.last() == lines@[i as int]@);
        }
        i = i + 1;
    }
    assert(ls.take(lines@.len() as int) =~= ls);
    s
}

/// Setting a key in `.env` leaves exactly the lines that set it changed, to `key=value`,
/// keeps every other line, and leaves a line `key=value` in the file.
pub proof fn law_update_env_sets_key(lines: Seq<Seq<char>>, key: Seq<char>, value: Seq<char>)
    ensures
        spec_update_env(lines, key, value).contains(spec_env_entry(key, value)),
        forall|i: int| 0 <= i < lines.len() && !is_key_line(#[trigger] lines[i], key) ==> spec_update_env(
            lines,
            key,
            value,
        )[i] == lines[i],
        spec_update_env(lines, key, value).len() >= lines.len(),
{
    let out = spec_update_env(lines, key, value);
    if exists|i: int| 0 <= i < lines.len() && is_key_line(#[trigger] lines[i], key) {
        let i = choose|i: int| 0 <= i < lines.len() && is_key_line(#[trigger] lines[i], key);
        assert(out[i] == spec_env_entry(key, value));
    } else {
        assert(out[lines.len() as int] == spec_env_entry(key, value));
    }
}

/// Setting a key (one without `=`) twice leaves the file as setting it once to the second
/// value: the last write wins, and nothing of the first remains.
pub proof fn law_update_env_last_write_wins(
    lines: Seq<Seq<char>>,
    key: Seq<char>,
    first: Seq<char>,
    second: Seq<char>,
)
    requires
        !key.contains('='),
    ensures
        spec_update_env(spec_update_env(lines, key, first), key, second) == spec_update_env(lines, key, second),
{
    reveal_strlit("=");
    let e1 = spec_env_entry(key, first);
    let e2 = spec_env_entry(key, second);
    assert(e1.take(key.len() as int) =~= key);
    assert(e1[key.len() as int] == '=');
    assert(e1.len() > key.len());
    assert(is_key_line(e1, key));
    let mid = spec_update_env(lines, key, first);
    let lhs = spec_update_env(mid, key, second);
    let rhs = spec_update_env(lines, key, second);
    if exists|i: int| 0 <= i < lines.len() && is_key_line(#[trigger] lines[i], key) {
        let i = choose|i: int| 0 <= i < lines.len() && is_key_line(#[trigger] lines[i], key);
        assert(mid[i] == e1);
        assert(is_key_line(mid[i], key));
    } else {
        assert(mid[lines.len() as int] == e1);
        assert(is_key_line(mid[lines.len() as int], key));
    }
    assert(lhs.len() == rhs.len());
    assert forall|j: int| 0 <= j < lhs.len() implies lhs[j] == rhs[j] by {
        if j < lines.len() {
            if is_key_line(lines[j], key) {
                assert(mid[j] == e1);
            } else {
                assert(mid[j] == lines[j]);
            }
        } else {
            assert(mid[j] == e1);
        }
    }
    assert(lhs =~= rhs);
}

/// A configuration value as found in the environment: trimmed, and absent where empty.
pub open spec fn spec_configured(raw: Option<Seq<char>>) -> Option<Seq<char>> {
    match raw {
        Some(v) => if text::spec_trim(v).len() > 0 {
            Some(text::spec_trim(v))
        } else {
            None
        },
        None => None,
    }
}

/// The value of a configuration variable read from the environment, if it holds one.
pub fn configured_value(raw: Option<&str>) -> (r: Option<String>)
    ensures
        match r {
            Some(v) => spec_configured(match raw { Some(s) => Some(s@), None => None }) == Some(v@),
            None => spec_configured(match raw { Some(s) => Some(s@), None => None }) is None,
        },
{
    match raw {
        Some(v) => {
            let t = text::trim(v);
            if t.unicode_len() > 0 {
                Some(String::from_str(t))
            } else {
                None
            }
        },
        None => None,
    }
}

} // verus!

verus! {

/// The error when a configuration value is neither set nor given.
pub open spec fn spec_config_error(key: Seq<char>, example: Seq<char>) -> Seq<char> {
    "Configuration Error: "@ + key + " is not set.\nRun: export "@ + key + "="@ + example
}

fn config_error(key: &str, example: &str) -> (s: String)
    ensures
        s@ == spec_config_error(key@, example@),
{
    let mut s = String::from_str("Configuration Error: ");
    s.append(key);
    s.append(" is not set.\nRun: export ");
    s.append(key);
    s.append("=");
    s.append(example);
    s
}

/// Which question a reply answers while a missing value is asked for.
#[derive(Clone, Copy, Debug)]
pub enum AskStage {
    /// Whether the user wants to enter the value now.
    Consent,
    /// The value itself.
    Value,
}

/// What to do next while a configuration value is looked up.
#[derive(Debug)]
pub enum ConfigAction {
    /// Print the question, read a line and hand it back with the stage.
    Ask(AskStage, String),
    /// Save the value to `.env` (a failure to save is ignored) and use it.
    Store(String),
    /// Stop with this result.
    Finish(Result<String, String>),
}

/// The value of a [`ConfigAction`].
pub enum ConfigActionSpec {
    Ask(AskStage, Seq<char>),
    Store(Seq<char>),
    Finish(Result<Seq<char>, Seq<char>>),
}

impl View for ConfigAction {
    type V = ConfigActionSpec;

    open spec fn view(&self) -> ConfigActionSpec {
        match self {
            ConfigAction::Ask(stage, q) => ConfigActionSpec::Ask(*stage, q@),
            ConfigAction::Store(v) => ConfigActionSpec::Store(v@),
            ConfigAction::Finish(Ok(v)) => ConfigActionSpec::Finish(Ok(v@)),
            ConfigAction::Finish(Err(e)) => ConfigActionSpec::Finish(Err(e@)),
        }
    }
}

/// The question that offers to enter a missing value.
pub open spec fn spec_consent_question(description: Seq<char>) -> Seq<char> {
    "\nWould you like to input the "@ + description + " now? (y/N): "@
}

/// The first step of looking up a configuration value, given what the environment holds:
/// a set value is used, trimmed; otherwise the user is offered to enter it.
pub open spec fn spec_config_start(description: Seq<char>, env: Option<Seq<char>>) -> ConfigActionSpec {
    match spec_configured(env) {
        Some(v) => ConfigActionSpec::Finish(Ok(v)),
        None => ConfigActionSpec::Ask(AskStage::Consent, spec_consent_question(description)),
    }
}

/// The step after a reply (or a failure to read one) at `stage`: agreeing leads to the value
/// question, a non-blank value is stored, anything else ends with the configuration error;
/// a read failure ends with its message.
pub open spec fn spec_config_reply(
    key: Seq<char>,
    description: Seq<char>,
    example: Seq<char>,
    stage: AskStage,
    reply: Result<Seq<char>, Seq<char>>,
) -> ConfigActionSpec {
    match reply {
        Err(e) => ConfigActionSpec::Finish(Err(e)),
        Ok(line) => match stage {
            AskStage::Consent => if crate::prompt::spec_is_yes(line) {
                ConfigActionSpec::Ask(AskStage::Value, "Enter "@ + description + ": "@)
            } else {
                ConfigActionSpec::Finish(Err(spec_config_error(key, example)))
            },
            AskStage::Value => if text::spec_trim(line).len() > 0 {
                ConfigActionSpec::Store(text::spec_trim(line))
            } else {
                ConfigActionSpec::Finish(Err(spec_config_error(key, example)))
            },
        },
    }
}

/// Starts looking up a configuration value from what the environment holds for it.
pub fn config_start(description: &str, env: Option<&str>) -> (a: ConfigAction)
    ensures
        a@ == spec_config_start(description@, match env { Some(s) => Some(s@), None => None }),
{
    match configured_value(env) {
        Some(v) => ConfigAction::Finish(Ok(v)),
        None => {
            let mut q = String::from_str("\nWould you like to input the ");
            q.append(description);
            q.append(" now? (y/N): ");
            ConfigAction::Ask(AskStage::Consent, q)
        },
    }
}

/// The next step of looking up the configuration value `key` after a reply at `stage`.
pub fn config_reply(
    key: &str,
    description: &str,
    example: &str,
    stage: AskStage,
    reply: Result<String, String>,
) -> (a: ConfigAction)
    ensures
        a@ == spec_config_reply(
            key@,
            description@,
            example@,
            stage,
            match reply { Ok(l) => Ok(l@), Err(e) => Err(e@) },
        ),
{
    match reply {
        Err(e) => ConfigAction::Finish(Err(e)),
        Ok(line) => match stage {
            AskStage::Consent => if crate::prompt::is_yes(line.as_str()) {
                let mut q = String::from_str("Enter ");
                q.append(description);
                q.append(": ");
                ConfigAction::Ask(AskStage::Value, q)
            } else {
                ConfigAction::Finish(Err(config_error(key, example)))
            },
            AskStage::Value => {
                let t = text::trim(line.as_str());
                if t.unicode_len() > 0 {
                    ConfigAction::Store(String::from_str(t))
                } else {
                    ConfigAction::Finish(Err(config_error(key, example)))
                }
            },
        },
    }
}

/// The question that asks outright for a value, with an example.
pub open spec fn spec_prompt_question(description: Seq<char>, example: Seq<char>) -> Seq<char> {
    "Enter "@ + description + " (e.g. "@ + example + "): "@
}

/// The question that asks outright for a value, with an example.
pub fn prompt_question(description: &str, example: &str) -> (s: String)
    ensures
        s@ == spec_prompt_question(description@, example@),
{
    let mut s = String::from_str("Enter ");
    s.append(description);
    s.append(" (e.g. ");
    s.append(example);
    s.append("): ");
    s
}

/// The value given in answer to [`prompt_question`]: trimmed, and refused where blank.
pub fn prompt_answer(description: &str, line: &str) -> (r: Result<String, String>)
    ensures
        match r {
            Ok(v) => text::spec_trim(line@).len() > 0 && v@ == text::spec_trim(line@),
            Err(m) => text::spec_trim(line@).len() == 0 && m@ == "Input for "@ + description@
                + " cannot be empty"@,
        },
{
    let t = text::trim(line);
    if t.unicode_len() > 0 {
        Ok(String::from_str(t))
    } else {
        let mut m = String::from_str("Input for ");
        m.append(description);
        m.append(" cannot be empty");
        Err(m)
    }
}

} // verus!
