use vstd::prelude::*;
use crate::names::ContractNames;
use crate::templates::{
    contract, contract_v2, deploy, deploy_upgrade, errors, events, storage, storage_v2, structs, test_limits,
    view, workflow_ci,
};

verus! {

/// The error when a contract is scaffolded outside a Foundry project.
pub open spec fn spec_not_a_project() -> Seq<char> {
    "[ERROR] 'foundry.toml' not found. This command must be run from the root of a Foundry project."@
}

/// Whether scaffolding may go on: only at the root of a Foundry project, where
/// `foundry.toml` exists.
pub fn scaffold_precheck(foundry_toml_exists: bool) -> (r: Result<(), String>)
    ensures
        match r {
            Ok(()) => foundry_toml_exists,
            Err(m) => !foundry_toml_exists && m@ == spec_not_a_project(),
        },
{
    if foundry_toml_exists {
        Ok(())
    } else {
        Err(
            String::from_str(
                "[ERROR] 'foundry.toml' not found. This command must be run from the root of a Foundry project.",
            ),
        )
    }
}

/// The directories that scaffolding creates, and resets where the user agrees.
pub open spec fn spec_scaffold_dirs() -> Seq<Seq<char>> {
    seq!["src"@, "src/libraries"@, "script"@, "test"@, ".github/workflows"@]
}

/// The directories that scaffolding creates, and resets where the user agrees.
pub fn scaffold_dirs() -> (v: Vec<&'static str>)
    ensures
        v@.map_values(|d: &'static str| d@) == spec_scaffold_dirs(),
{
    let v = vec!["src", "src/libraries", "script", "test", ".github/workflows"];
    assert(v@.map_values(|d: &'static str| d@) =~= spec_scaffold_dirs());
    v
}

/// A file that scaffolding writes.
#[derive(Debug)]
pub struct PlannedFile {
    /// Where, relative to the project root.
    pub path: String,
    /// The text written.
    pub content: String,
    /// Whether an existing file is replaced; otherwise it is kept.
    pub overwrite: bool,
}

/// The value of a [`PlannedFile`].
pub struct PlannedFileSpec {
    pub path: Seq<char>,
    pub content: Seq<char>,
    pub overwrite: bool,
}

impl View for PlannedFile {
    type V = PlannedFileSpec;

    open spec fn view(&self) -> PlannedFileSpec {
        PlannedFileSpec { path: self.path@, content: self.content@, overwrite: self.overwrite }
    }
}

/// A planned file, replaced where it exists.
pub open spec fn spec_replaced(path: Seq<char>, content: Seq<char>) -> PlannedFileSpec {
    PlannedFileSpec { path, content, overwrite: true }
}

/// A planned file, kept where it exists.
pub open spec fn spec_kept(path: Seq<char>, content: Seq<char>) -> PlannedFileSpec {
    PlannedFileSpec { path, content, overwrite: false }
}

/// The files that scaffolding writes for a contract, in order: the contract, its storage
/// library and view, its deploy script, its test, the size-limit test and CI workflow, the
/// second version with its storage and upgrade script (all replaced where they exist), and
/// the shared structs, errors and events libraries (kept where they exist).
pub open spec fn spec_scaffold_files(pascal: Seq<char>, camel: Seq<char>, lower: Seq<char>) -> Seq<PlannedFileSpec> {
    seq![
        spec_replaced("src/"@ + pascal + ".sol"@, contract::spec_render(pascal)),
        spec_replaced("src/libraries/"@ + pascal + "Storage.sol"@, storage::spec_render(pascal, camel, lower)),
        spec_replaced("src/libraries/"@ + pascal + "View.sol"@, view::spec_render(pascal)),
        spec_replaced("script/Deploy"@ + pascal + ".s.sol"@, deploy::spec_render(pascal)),
        spec_replaced("test/"@ + pascal + ".t.sol"@, crate::templates::test::spec_render(pascal)),
        spec_replaced("test/ContractLimits.t.sol"@, test_limits::spec_render(pascal)),
        spec_replaced(".github/workflows/contract-limits.yml"@, workflow_ci::spec_render(pascal)),
        spec_replaced("src/"@ + pascal + "V2.sol"@, contract_v2::spec_render(pascal)),
        spec_replaced("src/libraries/"@ + pascal + "V2Storage.sol"@, storage_v2::spec_render(pascal, camel, lower)),
        spec_replaced("script/Upgrade"@ + pascal + ".s.sol"@, deploy_upgrade::spec_render(pascal)),
        spec_kept("src/libraries/Structs.sol"@, structs::spec_render()),
        spec_kept("src/libraries/Errors.sol"@, errors::spec_render()),
        spec_kept("src/libraries/Events.sol"@, events::spec_render()),
    ]
}

/// `before`, the name, then `after`.
fn named_path(before: &str, name: &str, after: &str) -> (s: String)
    ensures
        s@ == before@ + name@ + after@,
{
    let mut s = String::from_str(before);
    s.append(name);
    s.append(after);
    s
}

/// The files that scaffolding writes for the contract with these names.
pub fn scaffold_files(n: &ContractNames) -> (v: Vec<PlannedFile>)
    ensures
        v@.map_values(|f: PlannedFile| f@) == spec_scaffold_files(n.pascal@, n.camel@, n.lower@),
{
    let p = n.pascal.as_str();
    let mut v: Vec<PlannedFile> = Vec::new();
    v.push(PlannedFile { path: named_path("src/", p, ".sol"), content: contract::render(n), overwrite: true });
    v.push(
        PlannedFile {
            path: named_path("src/libraries/", p, "Storage.sol"),
            content: storage::render(n),
            overwrite: true,
        },
    );
    v.push(
        PlannedFile { path: named_path("src/libraries/", p, "View.sol"), content: view::render(n), overwrite: true },
    );
    v.push(
        PlannedFile {
            path: named_path("script/Deploy", p, ".s.sol"),
            content: deploy::render(n),
            overwrite: true,
        },
    );
    v.push(PlannedFile { path: named_path("test/", p, ".t.sol"), content: crate::templates::test::render(n), overwrite: true });
    v.push(
        PlannedFile {
            path: String::from_str("test/ContractLimits.t.sol"),
            content: test_limits::render(n),
            overwrite: true,
        },
    );
    v.push(
        PlannedFile {
            path: String::from_str(".github/workflows/contract-limits.yml"),
            content: workflow_ci::render(n),
            overwrite: true,
        },
    );
    v.push(PlannedFile { path: named_path("src/", p, "V2.sol"), content: contract_v2::render(n), overwrite: true });
    v.push(
        PlannedFile {
            path: named_path("src/libraries/", p, "V2Storage.sol"),
            content: storage_v2::render(n),
            overwrite: true,
        },
    );
    v.push(
        PlannedFile {
            path: named_path("script/Upgrade", p, ".s.sol"),
            content: deploy_upgrade::render(n),
            overwrite: true,
        },
    );
    v.push(
        PlannedFile {
            path: String::from_str("src/libraries/Structs.sol"),
            content: structs::render(),
            overwrite: false,
        },
    );
    v.push(
        PlannedFile {
            path: String::from_str("src/libraries/Errors.sol"),
            content: errors::render(),
            overwrite: false,
        },
    );
    v.push(
        PlannedFile {
            path: String::from_str("src/libraries/Events.sol"),
            content: events::render(),
            overwrite: false,
        },
    );
    assert(v@.map_values(|f: PlannedFile| f@) =~= spec_scaffold_files(n.pascal@, n.camel@, n.lower@));
    v
}

/// What writing a planned file comes to.
#[derive(Debug, PartialEq, Eq)]
pub enum WriteStep {
    /// No file is there: write it.
    Create,
    /// A file is there and is replaced.
    Overwrite,
    /// A file is there and is kept.
    Skip,
}

/// What writing a file comes to: a missing file is written; an existing one is replaced
/// only where `overwrite` allows it.
pub open spec fn spec_write_step(exists: bool, overwrite: bool) -> WriteStep {
    if !exists {
        WriteStep::Create
    } else if overwrite {
        WriteStep::Overwrite
    } else {
        WriteStep::Skip
    }
}

/// What writing a file comes to, from whether one exists and whether it may be replaced.
pub fn write_step(exists: bool, overwrite: bool) -> (w: WriteStep)
    ensures
        w == spec_write_step(exists, overwrite),
{
    if !exists {
        WriteStep::Create
    } else if overwrite {
        WriteStep::Overwrite
    } else {
        WriteStep::Skip
    }
}

} // verus!

verus! {

/// The text and overwrite flag of the file that scaffolding writes at `path`, by what the
/// path names: the contract, its storage library, its view, its deploy script, its test,
/// the size-limit test, the CI workflow, the second version, its storage library, its
/// upgrade script (all replaced where they exist), and the shared structs, errors and events
/// libraries (kept where they exist); nothing for any other path.
pub open spec fn spec_file_at(pascal: Seq<char>, camel: Seq<char>, lower: Seq<char>, path: Seq<char>) -> Option<(Seq<char>, bool)> {
    if path == "src/"@ + pascal + ".sol"@ {
        Some((contract::spec_render(pascal), true))
    } else if path == "src/libraries/"@ + pascal + "Storage.sol"@ {
        Some((storage::spec_render(pascal, camel, lower), true))
    } else if path == "src/libraries/"@ + pascal + "View.sol"@ {
        Some((view::spec_render(pascal), true))
    } else if path == "script/Deploy"@ + pascal + ".s.sol"@ {
        Some((deploy::spec_render(pascal), true))
    } else if path == "test/"@ + pascal + ".t.sol"@ {
        Some((crate::templates::test::spec_render(pascal), true))
    } else if path == "test/ContractLimits.t.sol"@ {
        Some((test_limits::spec_render(pascal), true))
    } else if path == ".github/workflows/contract-limits.yml"@ {
        Some((workflow_ci::spec_render(pascal), true))
    } else if path == "src/"@ + pascal + "V2.sol"@ {
        Some((contract_v2::spec_render(pascal), true))
    } else if path == "src/libraries/"@ + pascal + "V2Storage.sol"@ {
        Some((storage_v2::spec_render(pascal, camel, lower), true))
    } else if path == "script/Upgrade"@ + pascal + ".s.sol"@ {
        Some((deploy_upgrade::spec_render(pascal), true))
    } else if path == "src/libraries/Structs.sol"@ {
        Some((structs::spec_render(), false))
    } else if path == "src/libraries/Errors.sol"@ {
        Some((errors::spec_render(), false))
    } else if path == "src/libraries/Events.sol"@ {
        Some((events::spec_render(), false))
    } else {
        None
    }
}

/// The paths that scaffolding writes to, for a contract named `pascal`.
pub open spec fn spec_scaffold_paths(pascal: Seq<char>) -> Seq<Seq<char>> {
    seq![
        "src/"@ + pascal + ".sol"@,
        "src/libraries/"@ + pascal + "Storage.sol"@,
        "src/libraries/"@ + pascal + "View.sol"@,
        "script/Deploy"@ + pascal + ".s.sol"@,
        "test/"@ + pascal + ".t.sol"@,
        "test/ContractLimits.t.sol"@,
        ".github/workflows/contract-limits.yml"@,
        "src/"@ + pascal + "V2.sol"@,
        "src/libraries/"@ + pascal + "V2Storage.sol"@,
        "script/Upgrade"@ + pascal + ".s.sol"@,
        "src/libraries/Structs.sol"@,
        "src/libraries/Errors.sol"@,
        "src/libraries/Events.sol"@,
    ]
}

proof fn lemma_scaffold_paths_distinct(pascal: Seq<char>)
    requires
        !pascal.contains('/'),
        pascal != "ContractLimits"@,
    ensures
        forall|i: int, j: int| 0 <= i < 13 && 0 <= j < 13 && i != j ==> spec_scaffold_paths(pascal)[i]
            != spec_scaffold_paths(pascal)[j],
{
    reveal_strlit(".github/workflows/contract-limits.yml");
    reveal_strlit(".s.sol");
    reveal_strlit(".sol");
    reveal_strlit(".t.sol");
    reveal_strlit("Storage.sol");
    reveal_strlit("V2.sol");
    reveal_strlit("V2Storage.sol");
    reveal_strlit("View.sol");
    reveal_strlit("script/Deploy");
    reveal_strlit("script/Upgrade");
    reveal_strlit("src/");
    reveal_strlit("src/libraries/");
    reveal_strlit("src/libraries/Errors.sol");
    reveal_strlit("src/libraries/Events.sol");
    reveal_strlit("src/libraries/Structs.sol");
    reveal_strlit("test/");
    reveal_strlit("test/ContractLimits.t.sol");
    assert(".github/workflows/contract-limits.yml"@.len() == 37);
    assert(".s.sol"@.len() == 6);
    assert(".sol"@.len() == 4);
    assert(".t.sol"@.len() == 6);
    assert("Storage.sol"@.len() == 11);
    assert("V2.sol"@.len() == 6);
    assert("V2Storage.sol"@.len() == 13);
    assert("View.sol"@.len() == 8);
    assert("script/Deploy"@.len() == 13);
    assert("script/Upgrade"@.len() == 14);
    assert("src/"@.len() == 4);
    assert("src/libraries/"@.len() == 14);
    assert("src/libraries/Errors.sol"@.len() == 24);
    assert("src/libraries/Events.sol"@.len() == 24);
    assert("src/libraries/Structs.sol"@.len() == 25);
    assert("test/"@.len() == 5);
    assert("test/ContractLimits.t.sol"@.len() == 25);
    let ps = spec_scaffold_paths(pascal);
    let n: int = pascal.len() as int;
    let k0 = "src/"@ + pascal + ".sol"@;
    assert(ps[0] == k0);
    assert(k0.len() == n + 8);
    assert(k0[0] == 's');
    assert(k0[1] == 'r');
    assert forall|j: int| 4 <= j < k0.len() implies k0[j] != '/' by {
        if j < 4 + n {
            assert(k0[j] == pascal[j - 4]);
            assert(pascal.contains(pascal[j - 4]));
        } else {
            assert(k0[j] == ".sol"@[j - 4 - n]);
        }
    }
    let k1 = "src/libraries/"@ + pascal + "Storage.sol"@;
    assert(ps[1] == k1);
    assert(k1.len() == n + 25);
    assert(k1[0] == 's');
    assert(k1[1] == 'r');
    assert forall|j: int| 14 <= j < k1.len() implies k1[j] != '/' by {
        if j < 14 + n {
            assert(k1[j] == pascal[j - 14]);
            assert(pascal.contains(pascal[j - 14]));
        } else {
            assert(k1[j] == "Storage.sol"@[j - 14 - n]);
        }
    }
    assert(k1[14 + n] == 'S');
    assert(k1[15 + n] == 't');
    assert(k1[16 + n] == 'o');
    let k2 = "src/libraries/"@ + pascal + "View.sol"@;
    assert(ps[2] == k2);
    assert(k2.len() == n + 22);
    assert(k2[0] == 's');
    assert(k2[1] == 'r');
    assert forall|j: int| 14 <= j < k2.len() implies k2[j] != '/' by {
        if j < 14 + n {
            assert(k2[j] == pascal[j - 14]);
            assert(pascal.contains(pascal[j - 14]));
        } else {
            assert(k2[j] == "View.sol"@[j - 14 - n]);
        }
    }
    assert(k2[14 + n] == 'V');
    assert(k2[15 + n] == 'i');
    assert(k2[16 + n] == 'e');
    let k3 = "script/Deploy"@ + pascal + ".s.sol"@;
    assert(ps[3] == k3);
    assert(k3.len() == n + 19);
    assert(k3[0] == 's');
    assert(k3[1] == 'c');
    assert forall|j: int| 13 <= j < k3.len() implies k3[j] != '/' by {
        if j < 13 + n {
            assert(k3[j] == pascal[j - 13]);
            assert(pascal.contains(pascal[j - 13]));
        } else {
            assert(k3[j] == ".s.sol"@[j - 13 - n]);
        }
    }
    let k4 = "test/"@ + pascal + ".t.sol"@;
    assert(ps[4] == k4);
    assert(k4.len() == n + 11);
    assert(k4[0] == 't');
    assert(k4[1] == 'e');
    assert forall|j: int| 5 <= j < k4.len() implies k4[j] != '/' by {
        if j < 5 + n {
            assert(k4[j] == pascal[j - 5]);
            assert(pascal.contains(pascal[j - 5]));
        } else {
            assert(k4[j] == ".t.sol"@[j - 5 - n]);
        }
    }
    let k5 = "test/ContractLimits.t.sol"@;
    assert(ps[5] == k5);
    assert(k5.len() == 25);
    assert(k5[0] == 't');
    assert(k5[1] == 'e');
    assert(k5[13] == 'L');
    assert(k5[15] == 'm');
    assert(k5[16] == 'i');
    assert(k5[17] == 't');
    let k6 = ".github/workflows/contract-limits.yml"@;
    assert(ps[6] == k6);
    assert(k6.len() == 37);
    assert(k6[0] == '.');
    assert(k6[1] == 'g');
    assert(k6[13] == 'l');
    assert(k6[15] == 'w');
    assert(k6[16] == 's');
    assert(k6[17] == '/');
    let k7 = "src/"@ + pascal + "V2.sol"@;
    assert(ps[7] == k7);
    assert(k7.len() == n + 10);
    assert(k7[0] == 's');
    assert(k7[1] == 'r');
    assert forall|j: int| 4 <= j < k7.len() implies k7[j] != '/' by {
        if j < 4 + n {
            assert(k7[j] == pascal[j - 4]);
            assert(pascal.contains(pascal[j - 4]));
        } else {
            assert(k7[j] == "V2.sol"@[j - 4 - n]);
        }
    }
    let k8 = "src/libraries/"@ + pascal + "V2Storage.sol"@;
    assert(ps[8] == k8);
    assert(k8.len() == n + 27);
    assert(k8[0] == 's');
    assert(k8[1] == 'r');
    assert forall|j: int| 14 <= j < k8.len() implies k8[j] != '/' by {
        if j < 14 + n {
            assert(k8[j] == pascal[j - 14]);
            assert(pascal.contains(pascal[j - 14]));
        } else {
            assert(k8[j] == "V2Storage.sol"@[j - 14 - n]);
        }
    }
    assert(k8[14 + n] == 'V');
    assert(k8[15 + n] == '2');
    assert(k8[16 + n] == 'S');
    let k9 = "script/Upgrade"@ + pascal + ".s.sol"@;
    assert(ps[9] == k9);
    assert(k9.len() == n + 20);
    assert(k9[0] == 's');
    assert(k9[1] == 'c');
    assert forall|j: int| 14 <= j < k9.len() implies k9[j] != '/' by {
        if j < 14 + n {
            assert(k9[j] == pascal[j - 14]);
            assert(pascal.contains(pascal[j - 14]));
        } else {
            assert(k9[j] == ".s.sol"@[j - 14 - n]);
        }
    }
    assert(k9[14 + n] == '.');
    assert(k9[15 + n] == 's');
    assert(k9[16 + n] == '.');
    let k10 = "src/libraries/Structs.sol"@;
    assert(ps[10] == k10);
    assert(k10.len() == 25);
    assert(k10[0] == 's');
    assert(k10[1] == 'r');
    assert(k10[13] == '/');
    assert(k10[15] == 't');
    assert(k10[16] == 'r');
    assert(k10[17] == 'u');
    let k11 = "src/libraries/Errors.sol"@;
    assert(ps[11] == k11);
    assert(k11.len() == 24);
    assert(k11[0] == 's');
    assert(k11[1] == 'r');
    assert(k11[13] == '/');
    assert(k11[15] == 'r');
    assert(k11[16] == 'r');
    assert(k11[17] == 'o');
    let k12 = "src/libraries/Events.sol"@;
    assert(ps[12] == k12);
    assert(k12.len() == 24);
    assert(k12[0] == 's');
    assert(k12[1] == 'r');
    assert(k12[13] == '/');
    assert(k12[15] == 'v');
    assert(k12[16] == 'e');
    assert(k12[17] == 'n');
    reveal_strlit("ContractLimits");
    assert("ContractLimits"@.len() == 14);
    if k4 == k5 {
        assert(k4.subrange(5, 5 + n) =~= pascal);
        assert(k5.subrange(5, 19) =~= "ContractLimits"@);
    }
    assert(k0 != k1);
    assert(k0 != k2);
    assert(k0 != k3);
    assert(k0 != k4);
    assert(k0 != k5);
    assert(k0 != k6);
    assert(k0 != k7);
    assert(k0 != k8);
    assert(k0 != k9);
    assert(k0 != k10);
    assert(k0 != k11);
    assert(k0 != k12);
    assert(k1 != k2);
    assert(k1 != k3);
    assert(k1 != k4);
    assert(k1 != k5);
    assert(k1 != k6);
    assert(k1 != k7);
    assert(k1 != k8);
    assert(k1 != k9);
    assert(k1 != k10);
    assert(k1 != k11);
    assert(k1 != k12);
    assert(k2 != k3);
    assert(k2 != k4);
    assert(k2 != k5);
    assert(k2 != k6);
    assert(k2 != k7);
    assert(k2 != k8);
    assert(k2 != k9);
    assert(k2 != k10);
    assert(k2 != k11);
    assert(k2 != k12);
    assert(k3 != k4);
    assert(k3 != k5);
    assert(k3 != k6);
    assert(k3 != k7);
    assert(k3 != k8);
    assert(k3 != k9);
    assert(k3 != k10);
    assert(k3 != k11);
    assert(k3 != k12);
    assert(k4 != k5);
    assert(k4 != k6);
    assert(k4 != k7);
    assert(k4 != k8);
    assert(k4 != k9);
    assert(k4 != k10);
    assert(k4 != k11);
    assert(k4 != k12);
    assert(k5 != k6);
    assert(k5 != k7);
    assert(k5 != k8);
    assert(k5 != k9);
    assert(k5 != k10);
    assert(k5 != k11);
    assert(k5 != k12);
    assert(k6 != k7);
    assert(k6 != k8);
    assert(k6 != k9);
    assert(k6 != k10);
    assert(k6 != k11);
    assert(k6 != k12);
    assert(k7 != k8);
    assert(k7 != k9);
    assert(k7 != k10);
    assert(k7 != k11);
    assert(k7 != k12);
    assert(k8 != k9);
    assert(k8 != k10);
    assert(k8 != k11);
    assert(k8 != k12);
    assert(k9 != k10);
    assert(k9 != k11);
    assert(k9 != k12);
    assert(k10 != k11);
    assert(k10 != k12);
    assert(k11 != k12);
}

/// Each planned file holds what its path names: the file at `src/libraries/<P>Storage.sol`
/// is the storage library, the one at `src/libraries/<P>V2Storage.sol` the second version's,
/// and so on for every path; the thirteen paths are all planned, once each. A name with a
/// `/`, or the name `ContractLimits` (whose test file is the size-limit test's path), makes
/// two paths meet, and is left out.
pub proof fn law_scaffold_files_match_paths(pascal: Seq<char>, camel: Seq<char>, lower: Seq<char>)
    requires
        !pascal.contains('/'),
        pascal != "ContractLimits"@,
    ensures
        spec_scaffold_files(pascal, camel, lower).len() == 13,
        forall|i: int| 0 <= i < spec_scaffold_files(pascal, camel, lower).len() ==> spec_file_at(
            pascal,
            camel,
            lower,
            #[trigger] spec_scaffold_files(pascal, camel, lower)[i].path,
        ) == Some((spec_scaffold_files(pascal, camel, lower)[i].content, spec_scaffold_files(pascal, camel, lower)[i].overwrite)),
        forall|k: int| 0 <= k < 13 ==> exists|i: int| 0 <= i < 13 && spec_scaffold_files(pascal, camel, lower)[i].path
            == #[trigger] spec_scaffold_paths(pascal)[k],
        forall|i: int, j: int| 0 <= i < 13 && 0 <= j < 13 && i != j ==> spec_scaffold_files(pascal, camel, lower)[i].path
            != spec_scaffold_files(pascal, camel, lower)[j].path,
{
    lemma_scaffold_paths_distinct(pascal);
    let fs = spec_scaffold_files(pascal, camel, lower);
    let ps = spec_scaffold_paths(pascal);
    assert forall|i: int| 0 <= i < 13 implies fs[i].path == ps[i] by {}
    assert forall|i: int| 0 <= i < fs.len() implies spec_file_at(pascal, camel, lower, #[trigger] fs[i].path)
        == Some((fs[i].content, fs[i].overwrite)) by {
        assert(fs[i].path == ps[i]);
        assert(forall|k: int| 0 <= k < 13 && k != i ==> ps[i] != ps[k]);
    }
    assert forall|k: int| 0 <= k < 13 implies exists|i: int| 0 <= i < 13 && fs[i].path == #[trigger] ps[k] by {
        assert(fs[k].path == ps[k]);
    }
}

} // verus!
