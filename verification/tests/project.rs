use hara::cli::{Action, Cli, CodexArgs, CodexSubcommands, Commands, ContractArgs, ContractCommands, FoundryArgs, FoundryCommands, HnsArgs, HnsCommands, RegisterArgs, RegisterSubcommands};
use hara::config::{configured_value, env_text, update_env_lines};
use hara::gitignore::gitignore_with_entry;
use hara::names::ContractNames;
use hara::register::{calc_node, calc_parent_node, extract_label, sidecar_candidates, LabelError};
use hara::shell::which_shell;
use hara::templates;
use tiny_keccak::{Hasher, Keccak};

fn keccak(data: &[u8]) -> [u8; 32] {
    let mut k = Keccak::v256();
    k.update(data);
    let mut out = [0u8; 32];
    k.finalize(&mut out);
    out
}

fn step(parent: &[u8], label: &str) -> [u8; 32] {
    let mut buf = parent.to_vec();
    buf.extend_from_slice(&keccak(label.as_bytes()));
    keccak(&buf)
}

#[test]
fn namehash_of_hara_nodes() {
    let parent = step(&step(&[0u8; 32], "ethnet"), "hara");
    assert_eq!(calc_parent_node(), parent);
    assert_eq!(calc_node("mytoken"), step(&parent, "mytoken"));
    assert_ne!(calc_node("a"), calc_node("b"));
}

#[test]
fn labels_from_paths() {
    assert_eq!(extract_label("/x/MyToken.hara.json"), Ok("mytoken".to_string()));
    assert_eq!(extract_label("/x/MyToken.hara.ethnet.json"), Ok("mytoken".to_string()));
    assert_eq!(extract_label("/x/Foo-Bar_2.abi.bin"), Ok("foobar2abi".to_string()));
    assert_eq!(extract_label("/x/---.json"), Err(LabelError::EmptyLabel));
    assert_eq!(extract_label("/"), Err(LabelError::InvalidFileName));
}

#[test]
fn sidecars_of_bin_files() {
    let (a, b) = sidecar_candidates("/x/Token.abi.bin");
    assert_eq!(a, "/x/Token.abi.json");
    assert_eq!(b, "/x/Token.json");
    let (a, b) = sidecar_candidates("/x/Token.bin");
    assert_eq!(a, "/x/Token.json");
    assert_eq!(b, "/x/Token.bin");
}

#[test]
fn shell_choice() {
    assert_eq!(which_shell(&[false, true, false, false]), r"C:\Program Files\Git\usr\bin\bash.exe");
    assert_eq!(which_shell(&[true, true, true, true]), r"C:\Program Files\Git\bin\bash.exe");
    assert_eq!(which_shell(&[false, false, false, false]), "bash");
    assert_eq!(which_shell(&[]), "bash");
}

#[test]
fn env_updates() {
    let lines = vec!["A=1".to_string(), "HARA_RPC=old".to_string(), "B".to_string()];
    let out = update_env_lines(&lines, "HARA_RPC", "new");
    assert_eq!(out, vec!["A=1", "HARA_RPC=new", "B"]);
    let out = update_env_lines(&lines, "HARA_PK", "k");
    assert_eq!(out, vec!["A=1", "HARA_RPC=old", "B", "HARA_PK=k"]);
    assert_eq!(env_text(&out), "A=1\nHARA_RPC=old\nB\nHARA_PK=k\n");
    assert_eq!(update_env_lines(&vec![], "K", "v"), vec!["K=v"]);
    // Only the line whose text before `=` is the key itself is replaced.
    let lines = vec!["HARA_RPC_URL=x".to_string(), "HARA_RPC =y".to_string()];
    assert_eq!(
        update_env_lines(&lines, "HARA_RPC", "z"),
        vec!["HARA_RPC_URL=x", "HARA_RPC =y", "HARA_RPC=z"]
    );
    assert_eq!(configured_value(Some("  http://x  ")), Some("http://x".to_string()));
    assert_eq!(configured_value(Some("   ")), None);
    assert_eq!(configured_value(None), None);
}

#[test]
fn gitignore_entries() {
    assert_eq!(gitignore_with_entry("out/\n.env\n", ".env"), None);
    assert_eq!(gitignore_with_entry("out/\r\n  .env  \r\n", ".env"), None);
    assert_eq!(gitignore_with_entry("out/", ".env"), Some("out/\n.env\n".to_string()));
    assert_eq!(gitignore_with_entry("out/\n", ".env"), Some("out/\n.env\n".to_string()));
    assert_eq!(gitignore_with_entry("", ".env"), Some(".env\n".to_string()));
    let once = gitignore_with_entry("lib", ".env").unwrap();
    assert_eq!(gitignore_with_entry(&once, ".env"), None);
}

#[test]
fn dispatch_of_command_lines() {
    let cli = Cli { command: Commands::Hns(HnsArgs { command: HnsCommands::Register(RegisterArgs { command: None, path: None }) }) };
    assert_eq!(hara::cli::dispatch(cli), Action::Register(".".to_string()));
    let cli = Cli { command: Commands::Hns(HnsArgs { command: HnsCommands::Register(RegisterArgs { command: Some(RegisterSubcommands::Reset), path: Some("x".to_string()) }) }) };
    assert_eq!(hara::cli::dispatch(cli), Action::RegisterReset);
    let cli = Cli { command: Commands::Hns(HnsArgs { command: HnsCommands::Codex(CodexArgs { command: CodexSubcommands::Inspect { path: "a.abi.bin".to_string() } }) }) };
    assert_eq!(hara::cli::dispatch(cli), Action::CodexInspect("a.abi.bin".to_string()));
    let cli = Cli { command: Commands::Foundry(FoundryArgs { command: FoundryCommands::Contract(ContractArgs { command: ContractCommands::Uc { name: "MyToken".to_string() } }) }) };
    assert_eq!(hara::cli::dispatch(cli), Action::ScaffoldUc("MyToken".to_string()));
}

#[test]
fn templates_use_the_names() {
    let n = ContractNames::from_raw("my_token");
    let c = templates::contract::render(&n);
    assert!(c.contains("contract MyToken is Initializable, OwnableUpgradeable, MyTokenView {"));
    assert!(c.contains("using LibMyTokenStorage for *;"));
    let s = templates::storage::render(&n);
    assert!(s.contains("bytes32 internal constant myTokenPoint = keccak256(\"my_token.storage\");"));
    let s2 = templates::storage_v2::render(&n);
    assert!(s2.contains("keccak256(\"my_token.storage.v2\")"));
    assert!(templates::deploy_upgrade::render(&n).contains("contract UpgradeMyTokenScript"));
    assert!(templates::workflow_ci::render(&n).contains("name: gas-snapshot-MyToken"));
    assert!(templates::test::render(&n).contains("MyToken public contractInstance;"));
    assert!(templates::test_limits::render(&n).contains("[SIZE] MyToken (impl):"));
    assert!(templates::view::render(&n).contains("LibMyTokenStorage"));
    assert!(templates::contract_v2::render(&n).contains("/// @title MyTokenV2"));
    assert_eq!(
        templates::structs::render(),
        "// SPDX-License-Identifier: UNLICENSED\npragma solidity ^0.8.29;\n\nstruct ModularStorage {\n    mapping(uint256 => uint256) idToCounter;\n}\n"
    );
}
