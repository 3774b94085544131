use hara::codex::decode::output_path as decode_output_path;
use hara::codex::encode::output_path as encode_output_path;
use hara::register::{extract_label, label_hash};
use tiny_keccak::{Hasher, Keccak};
use hara::codex::abi::{AbiBlob, AbiEvent, AbiFunction, AbiType, EventParam};
use hara::codex::decode::decode_blob;
use hara::codex::encode::{event_sig, topic0};
use hara::codex::inspect::pretty_json;
use hara::codex::parser::{abi_blob_from_items, abi_source, AbiSource, RawItem};
use hara::codex::commands::{bin_from_hex_text, decode_to_json, encode_precheck, encode_summary, inspect_report};
use hara::codex::encode::encode_blob;
use hara::codex::inspect::hexdump;
use hara::config::{config_reply, config_start, prompt_answer, prompt_question, update_env_lines, AskStage, ConfigAction};
use hara::names::ContractNames;
use hara::project::exit::CommandExit;
use hara::project::forge::{forge_display, forge_result};
use hara::project::files;
use hara::project::init::{answers, init_next, InitAction, InitEvent, InitProfile, InitState};
use hara::project::install::{after_foundryup, after_installer, after_powershell, install_start, InstallAction, InstallEnd, InstallProfile};
use hara::project::scaffold::{scaffold_dirs, scaffold_files, scaffold_precheck, write_step, WriteStep};
use hara::register::{file_schema_kind, proxy_address, schema_address, schema_kind, SchemaKind};
use hara::templates;
use hara::text::trim_start_matches;
use std::collections::BTreeMap;

#[test]
fn encode_prechecks_and_summaries() {
    assert_eq!(encode_precheck("abis", false, 0), Err("Path does not exist: abis".to_string()));
    assert_eq!(encode_precheck("abis", true, 0), Err("No .json files found in: abis".to_string()));
    assert_eq!(encode_precheck("abis", true, 3), Ok(()));
    assert_eq!(encode_summary(0), Ok(()));
    assert_eq!(encode_summary(1), Err("1 file(s) failed to encode".to_string()));
    assert_eq!(encode_summary(120), Err("120 file(s) failed to encode".to_string()));
}

fn sample_blob() -> AbiBlob {
    AbiBlob {
        functions: vec![AbiFunction { name: b"set".to_vec(), inputs: vec![AbiType::Uint8], outputs: vec![] }],
        events: vec![],
        errors: vec![],
    }
}

#[test]
fn decode_to_json_pretty_prints_or_reports() {
    let bytes = encode_blob(&sample_blob());
    let json = decode_to_json(&bytes).unwrap();
    let value: serde_json::Value = serde_json::from_str(&json).unwrap();
    assert_eq!(value[0]["name"], "set");
    assert_eq!(value[0]["kind"], "function");
    assert!(json.contains('\n'));
    assert_eq!(decode_to_json(&[]), Err("Decode error: unexpected end of data".to_string()));
    assert_eq!(decode_to_json(&[1, 9, 0, 0]), Err("Decode error: unknown entry type".to_string()));
}

#[test]
fn inspect_report_of_good_and_bad_blobs() {
    let bytes = encode_blob(&sample_blob());
    let (text, err) = inspect_report("a.abi.bin", &bytes);
    assert_eq!(err, None);
    let head = format!(
        "--- ABI Binary Inspection: a.abi.bin ---\nFile size: {} bytes\n\nHex Dump:\n{}",
        bytes.len(),
        hexdump(&bytes)
    );
    assert!(text.starts_with(&head));
    let rest = &text[head.len()..];
    assert!(rest.starts_with(
        "\nSummary:\n  Functions: 1\n  Events:    0\n  Errors:    0\n\nJSON Manifest:\n"
    ));
    assert!(rest.ends_with("]\n"));

    let (text, err) = inspect_report("b.bin", &[2, 0]);
    assert_eq!(err, Some("unexpected end of data".to_string()));
    assert_eq!(text, format!("--- ABI Binary Inspection: b.bin ---\nFile size: 2 bytes\n\nHex Dump:\n{}", hexdump(&[2, 0])));
}

#[test]
fn hex_text_files_to_bytes() {
    assert_eq!(bin_from_hex_text("  0xdead beef\n"), Ok(vec![0xde, 0xad, 0xbe, 0xef]));
    assert_eq!(
        bin_from_hex_text("abc"),
        Err("Hex decode error: odd number of digits. Make sure the file only contains a valid hex string (with or without 0x prefix).".to_string())
    );
}

fn ask(a: &ConfigAction) -> Option<(AskStage, String)> {
    match a {
        ConfigAction::Ask(stage, q) => Some((*stage, q.clone())),
        _ => None,
    }
}

#[test]
fn configuration_from_environment_or_user() {
    match config_start("HARA RPC URL", Some("  http://node:1  ")) {
        ConfigAction::Finish(Ok(v)) => assert_eq!(v, "http://node:1"),
        other => panic!("unexpected {:?}", other),
    }
    let first = config_start("HARA RPC URL", Some("   "));
    let (stage, q) = ask(&first).unwrap();
    assert!(matches!(stage, AskStage::Consent));
    assert_eq!(q, "\nWould you like to input the HARA RPC URL now? (y/N): ");
    assert!(ask(&config_start("HARA RPC URL", None)).is_some());

    let second = config_reply("HARA_RPC", "HARA RPC URL", "http://x", AskStage::Consent, Ok(" YES\n".to_string()));
    let (stage, q) = ask(&second).unwrap();
    assert!(matches!(stage, AskStage::Value));
    assert_eq!(q, "Enter HARA RPC URL: ");

    match config_reply("HARA_RPC", "HARA RPC URL", "http://x", AskStage::Value, Ok(" http://n:2 \n".to_string())) {
        ConfigAction::Store(v) => assert_eq!(v, "http://n:2"),
        other => panic!("unexpected {:?}", other),
    }
    let refused = "Configuration Error: HARA_RPC is not set.\nRun: export HARA_RPC=http://x".to_string();
    match config_reply("HARA_RPC", "HARA RPC URL", "http://x", AskStage::Consent, Ok("n\n".to_string())) {
        ConfigAction::Finish(Err(e)) => assert_eq!(e, refused),
        other => panic!("unexpected {:?}", other),
    }
    match config_reply("HARA_RPC", "HARA RPC URL", "http://x", AskStage::Value, Ok("  \n".to_string())) {
        ConfigAction::Finish(Err(e)) => assert_eq!(e, refused),
        other => panic!("unexpected {:?}", other),
    }
    match config_reply("HARA_RPC", "HARA RPC URL", "http://x", AskStage::Value, Err("broken pipe".to_string())) {
        ConfigAction::Finish(Err(e)) => assert_eq!(e, "broken pipe"),
        other => panic!("unexpected {:?}", other),
    }
}

#[test]
fn forced_prompts() {
    assert_eq!(prompt_question("HNS Proxy Address", "0x..."), "Enter HNS Proxy Address (e.g. 0x...): ");
    assert_eq!(prompt_answer("HNS Proxy Address", " 0xabc \n"), Ok("0xabc".to_string()));
    assert_eq!(prompt_answer("HNS Proxy Address", "\n"), Err("Input for HNS Proxy Address cannot be empty".to_string()));
}

#[test]
fn forge_messages() {
    assert_eq!(forge_display(&["init", "--force"]), "forge init --force");
    assert_eq!(forge_display(&[]), "forge ");
    assert_eq!(forge_result(&["build"], CommandExit::Exited(true)), Ok(()));
    assert_eq!(
        forge_result(&["build"], CommandExit::Exited(false)),
        Err("`forge build` exited with non-zero status".to_string())
    );
    assert_eq!(
        forge_result(&["install", "x"], CommandExit::LaunchFailed("not found".to_string())),
        Err("Failed to launch `forge install x`: not found\n  Is Foundry installed? Run: hara foundry install".to_string())
    );
}

fn finish(a: InstallAction) -> Result<InstallEnd, String> {
    match a {
        InstallAction::Finish(r) => r,
        other => panic!("unexpected {:?}", other),
    }
}

#[test]
fn install_steps() {
    assert!(matches!(install_start(InstallProfile::Standard, true), InstallAction::RunPowershell));
    assert!(matches!(install_start(InstallProfile::Standard, false), InstallAction::RunInstaller));
    assert_eq!(finish(after_powershell(CommandExit::Exited(true))), Ok(InstallEnd::Installed));
    assert_eq!(
        finish(after_powershell(CommandExit::Exited(false))),
        Err("Foundry installation via PowerShell failed.".to_string())
    );
    assert_eq!(
        finish(after_powershell(CommandExit::LaunchFailed("no pwsh".to_string()))),
        Err("Failed to run PowerShell: no pwsh".to_string())
    );
    match after_installer(InstallProfile::Standard, true, CommandExit::Exited(true), "C:\\Users\\me\\.foundry\\bin\\foundryup.exe", true) {
        InstallAction::RunFoundryup(p) => assert_eq!(p, "C:/Users/me/.foundry/bin/foundryup.exe"),
        other => panic!("unexpected {:?}", other),
    }
    assert!(matches!(
        after_installer(InstallProfile::Standard, true, CommandExit::Exited(false), "/home/me/.foundry/bin/foundryup.exe", true),
        InstallAction::RunFoundryup(_)
    ));
    assert_eq!(
        finish(after_installer(InstallProfile::Standard, true, CommandExit::Exited(false), "foundryup.exe", true)),
        Err("Foundry installer failed.\n  Make sure curl and bash are available.".to_string())
    );
    assert_eq!(
        finish(after_installer(InstallProfile::Standard, true, CommandExit::Exited(false), "/x/foundryup.exe", false)),
        Err("Foundry installer failed.\n  Make sure curl and bash are available.".to_string())
    );
    assert_eq!(
        finish(after_installer(InstallProfile::Standard, true, CommandExit::LaunchFailed("no bash".to_string()), "foundryup.exe", false)),
        Err("Failed to run installer (requires bash + curl): no bash".to_string())
    );
    assert_eq!(finish(after_foundryup(CommandExit::Exited(true))), Ok(InstallEnd::Installed));
    assert_eq!(finish(after_foundryup(CommandExit::Exited(false))), Ok(InstallEnd::FoundryupPending));
}

/// Runs the initialisation against an in-memory project; `forge_fails` lists the forge
/// command lines that fail.
fn run_init(
    files_in: &[(&str, &str)],
    forge_fails: &[&str],
    git_ok: bool,
) -> (Vec<String>, BTreeMap<String, String>, Result<(), String>) {
    run_init_with(InitProfile::Standard, files_in, forge_fails, git_ok)
}

fn run_init_with(
    profile: InitProfile,
    files_in: &[(&str, &str)],
    forge_fails: &[&str],
    git_ok: bool,
) -> (Vec<String>, BTreeMap<String, String>, Result<(), String>) {
    let mut fs: BTreeMap<String, String> = files_in.iter().map(|(p, t)| (p.to_string(), t.to_string())).collect();
    let mut log = Vec::new();
    let mut state = InitState::Start;
    let mut event = InitEvent::Begin;
    for _ in 0..100 {
        assert!(answers(state, &event));
        let (next, action) = init_next(profile, state, event);
        state = next;
        event = match action {
            InitAction::Check(p) => InitEvent::Exists(fs.contains_key(p)),
            InitAction::Forge(args) => {
                let line = args.join(" ");
                log.push(format!("forge {}", line));
                if forge_fails.contains(&line.as_str()) {
                    InitEvent::Forged(Err(format!("`forge {}` exited with non-zero status", line)))
                } else {
                    InitEvent::Forged(Ok(()))
                }
            }
            InitAction::GitInit => {
                log.push("git init".to_string());
                InitEvent::Git(CommandExit::Exited(git_ok))
            }
            InitAction::Write(p, t) => {
                log.push(format!("write {}", p));
                fs.insert(p.to_string(), t);
                InitEvent::Wrote(Ok(()))
            }
            InitAction::Read(p) => InitEvent::Read(fs.get(p).cloned().ok_or_else(|| "missing".to_string())),
            InitAction::Finish(r) => return (log, fs, r),
        };
    }
    panic!("the run did not end");
}

#[test]
fn init_in_an_empty_directory() {
    let (log, fs, r) = run_init(&[], &[], true);
    assert_eq!(r, Ok(()));
    assert_eq!(
        log,
        vec![
            "forge init --force --no-git",
            "git init",
            "forge install openzeppelin/openzeppelin-contracts@v5.0.1",
            "forge install openzeppelin/openzeppelin-contracts-upgradeable@v5.0.1",
            "forge install foundry-rs/forge-std",
            "write foundry.toml",
            "write remappings.txt",
            "write .env",
            "write .env.example",
            "write .gitignore",
            "forge build",
        ]
    );
    assert_eq!(fs[".env"], files::dot_env());
    assert_eq!(fs["foundry.toml"], files::foundry_toml());
    assert_eq!(fs[".gitignore"], files::gitignore());
}

#[test]
fn init_in_an_existing_project_keeps_secrets() {
    let existing = [
        ("foundry.toml", "old"),
        (".git", ""),
        (".env", "HARA_PK=secret\n"),
        (".gitignore", "out/\ncache/"),
    ];
    let (log, fs, r) = run_init(&existing, &["install foundry-rs/forge-std"], true);
    assert_eq!(r, Ok(()));
    assert!(!log.iter().any(|l| l.starts_with("forge init") || l == "git init" || l == "write .env"));
    assert_eq!(fs[".env"], "HARA_PK=secret\n");
    assert_eq!(fs[".gitignore"], "out/\ncache/\n.env\n");
    assert_eq!(fs["foundry.toml"], files::foundry_toml());

    let listed = [("foundry.toml", ""), (".git", ""), (".gitignore", "  .env  \n")];
    let (log, fs, _) = run_init(&listed, &[], true);
    assert!(!log.iter().any(|l| l == "write .gitignore"));
    assert_eq!(fs[".gitignore"], "  .env  \n");
}

#[test]
fn init_failures() {
    let (log, _, r) = run_init(&[], &["init --force --no-git"], true);
    assert_eq!(r, Ok(()));
    assert_eq!(log[0..2], ["forge init --force --no-git".to_string(), "forge init --force".to_string()]);

    let (_, _, r) = run_init(&[], &["init --force --no-git", "init --force"], true);
    assert_eq!(r, Err("`forge init --force` exited with non-zero status".to_string()));

    let (_, _, r) = run_init(&[("foundry.toml", "")], &[], false);
    assert_eq!(r, Err("git init failed. Make sure git is installed.".to_string()));

    let (_, _, r) = run_init(&[("foundry.toml", ""), (".git", "")], &["build"], true);
    assert_eq!(r, Err("`forge build` exited with non-zero status".to_string()));

    let (next, action) = init_next(InitProfile::Standard, InitState::WroteToml, InitEvent::Wrote(Err("denied".to_string())));
    assert_eq!(next, InitState::WroteToml);
    match action {
        InitAction::Finish(Err(e)) => assert_eq!(e, "Failed to write foundry.toml: denied"),
        other => panic!("unexpected {:?}", other),
    }
    let (_, action) = init_next(InitProfile::Standard, InitState::GitInit, InitEvent::Git(CommandExit::LaunchFailed("no git".to_string())));
    match action {
        InitAction::Finish(Err(e)) => assert_eq!(e, "Failed to run git init: no git"),
        other => panic!("unexpected {:?}", other),
    }
    assert!(!answers(InitState::CheckedEnv, &InitEvent::Wrote(Ok(()))));
}

#[test]
fn scaffold_plan() {
    assert_eq!(scaffold_precheck(true), Ok(()));
    assert_eq!(
        scaffold_precheck(false),
        Err("[ERROR] 'foundry.toml' not found. This command must be run from the root of a Foundry project.".to_string())
    );
    assert_eq!(scaffold_dirs(), vec!["src", "src/libraries", "script", "test", ".github/workflows"]);
    let names = ContractNames::from_raw("my_token");
    let files = scaffold_files(&names);
    let paths: Vec<&str> = files.iter().map(|f| f.path.as_str()).collect();
    assert_eq!(
        paths,
        vec![
            "src/MyToken.sol",
            "src/libraries/MyTokenStorage.sol",
            "src/libraries/MyTokenView.sol",
            "script/DeployMyToken.s.sol",
            "test/MyToken.t.sol",
            "test/ContractLimits.t.sol",
            ".github/workflows/contract-limits.yml",
            "src/MyTokenV2.sol",
            "src/libraries/MyTokenV2Storage.sol",
            "script/UpgradeMyToken.s.sol",
            "src/libraries/Structs.sol",
            "src/libraries/Errors.sol",
            "src/libraries/Events.sol",
        ]
    );
    assert_eq!(files[0].content, templates::contract::render(&names));
    assert_eq!(files[3].content, templates::deploy::render(&names));
    assert!(files[3].content.contains("new MyToken()"));
    assert_eq!(files[10].content, templates::structs::render());
    assert_eq!(files[11].content, templates::errors::render());
    assert_eq!(files[12].content, templates::events::render());
    assert!(files[..10].iter().all(|f| f.overwrite));
    assert!(files[10..].iter().all(|f| !f.overwrite));
    assert_eq!(write_step(false, false), WriteStep::Create);
    assert_eq!(write_step(true, true), WriteStep::Overwrite);
    assert_eq!(write_step(true, false), WriteStep::Skip);
}

#[test]
fn schema_kinds_of_paths() {
    assert_eq!(schema_kind("dir/Token.hara.json"), Some(SchemaKind::Json));
    assert_eq!(schema_kind("dir/Token.abi.bin"), Some(SchemaKind::Bin));
    assert_eq!(schema_kind("dir/Token.JSON"), None);
    assert_eq!(schema_kind("dir/.json"), None);
    assert_eq!(schema_kind("README"), None);
    assert_eq!(file_schema_kind("a.bin"), Ok(SchemaKind::Bin));
    assert_eq!(
        file_schema_kind("a.txt"),
        Err("Unsupported file type. Provide a .json or .bin file.".to_string())
    );
}

#[test]
fn private_key_prefixes() {
    assert_eq!(trim_start_matches("0xabc", "0x"), "abc");
    assert_eq!(trim_start_matches("0x0xabc", "0x"), "abc");
    assert_eq!(trim_start_matches("abc0x", "0x"), "abc0x");
    assert_eq!(trim_start_matches("abc", ""), "abc");
}

#[test]
fn event_topic0_from_signature() {
    let params = vec![
        EventParam { ty: AbiType::Address, indexed: true },
        EventParam { ty: AbiType::Address, indexed: true },
        EventParam { ty: AbiType::Uint256, indexed: false },
    ];
    let sig = event_sig(b"Transfer", &params);
    assert_eq!(sig, "Transfer(address,address,uint256)");
    let t0 = topic0(&sig);
    let hex: String = t0.iter().map(|b| format!("{:02x}", b)).collect();
    assert_eq!(hex, "ddf252ad1be2c89b69c2b068fc378daa952ba7f163c4a11628f55a4df523b3ef");
    assert_eq!(event_sig(b"Ping", &vec![]), "Ping()");

    let blob = AbiBlob { functions: vec![], events: vec![AbiEvent { name: b"Transfer".to_vec(), params }], errors: vec![] };
    let decoded = decode_blob(&encode_blob(&blob)).unwrap();
    assert_eq!(topic0(&event_sig(&decoded.events[0].name, &decoded.events[0].params)), t0);
}

#[test]
fn env_last_write_wins() {
    let lines = vec!["A=1".to_string(), "HARA_PK=x".to_string(), "B=2".to_string()];
    let once = update_env_lines(&lines, "HARA_PK", "z");
    let twice = update_env_lines(&update_env_lines(&lines, "HARA_PK", "y"), "HARA_PK", "z");
    assert_eq!(once, twice);
    assert_eq!(once, vec!["A=1", "HARA_PK=z", "B=2"]);

    let empty: Vec<String> = vec![];
    let twice = update_env_lines(&update_env_lines(&empty, "HARA_RPC", "a"), "HARA_RPC", "b");
    assert_eq!(twice, vec!["HARA_RPC=b"]);
}

#[test]
fn init_runs_end_within_the_states() {
    let mut state = InitState::Start;
    let mut event = InitEvent::Begin;
    let mut steps = 0;
    loop {
        let (next, action) = init_next(InitProfile::Standard, state, event);
        steps += 1;
        state = next;
        event = match action {
            InitAction::Check(_) => InitEvent::Exists(false),
            InitAction::Forge(_) => InitEvent::Forged(Ok(())),
            InitAction::GitInit => InitEvent::Git(CommandExit::Exited(true)),
            InitAction::Write(_, _) => InitEvent::Wrote(Ok(())),
            InitAction::Read(_) => InitEvent::Read(Ok(String::new())),
            InitAction::Finish(r) => {
                assert_eq!(r, Ok(()));
                break;
            }
        };
    }
    assert!(steps <= 19);
}

#[test]
fn test_uc_command_no_foundry_toml() {
    let err = scaffold_precheck(false).unwrap_err();
    assert!(err.contains("'foundry.toml' not found"));
}

#[test]
fn test_uc_files_created() {
    let names = ContractNames::from_raw("MyContract");
    let paths: Vec<String> = scaffold_files(&names).into_iter().map(|f| f.path).collect();
    assert!(paths.contains(&"src/MyContract.sol".to_string()), "src/MyContract.sol should be scaffolded");
    assert!(
        paths.contains(&"src/libraries/MyContractStorage.sol".to_string()),
        "MyContractStorage.sol should be scaffolded"
    );
}

#[test]
fn test_write_file() {
    // A missing file is written; an existing one is kept unless overwriting is asked for.
    assert_eq!(write_step(false, false), WriteStep::Create);
    assert_eq!(write_step(true, false), WriteStep::Skip);
    assert_eq!(write_step(true, true), WriteStep::Overwrite);
}

#[test]
fn abi_json_sources_and_errors() {
    assert_eq!(abi_source("[]"), Ok(AbiSource::Root));
    assert_eq!(abi_source(r#"{"abi": [], "bytecode": "0x"}"#), Ok(AbiSource::AbiField));
    assert_eq!(abi_source(r#"{"bytecode": "0x"}"#), Err("JSON object has no \"abi\" field".to_string()));
    assert_eq!(
        abi_source("\"hello\""),
        Err("expected a JSON array or an object with an \"abi\" field".to_string())
    );
    let err = abi_source("").unwrap_err();
    let serde_msg = serde_json::from_str::<serde_json::Value>("").unwrap_err().to_string();
    assert_eq!(err, format!("JSON parse error: {}", serde_msg));
    assert!(abi_source("[1, 2").unwrap_err().starts_with("JSON parse error: "));

    assert_eq!(
        abi_blob_from_items(Err("invalid type".to_string())).unwrap_err(),
        "ABI parse error: invalid type"
    );
    let items = vec![RawItem { kind: "error".to_string(), name: Some("Oops".to_string()), inputs: vec![], outputs: vec![] }];
    let blob = abi_blob_from_items(Ok(items)).unwrap();
    assert_eq!(blob.errors.len(), 1);
    assert_eq!(blob.errors[0].name, b"Oops".to_vec());
}

#[test]
fn pretty_json_matches_serde() {
    let text = r#"[{"a":1}]"#;
    let v: serde_json::Value = serde_json::from_str(text).unwrap();
    assert_eq!(pretty_json(text), serde_json::to_string_pretty(&v).unwrap());
    assert_eq!(pretty_json("not json"), "not json");

    let bytes = encode_blob(&sample_blob());
    let manifest = hara::codex::json::blob_to_json(&decode_blob(&bytes).unwrap());
    assert_eq!(decode_to_json(&bytes).unwrap(), pretty_json(&manifest));
    let (text, _) = inspect_report("x", &bytes);
    assert!(text.ends_with(&format!("{}\n", pretty_json(&manifest))));
}

#[test]
fn contract_addresses() {
    let a = schema_address(SchemaKind::Json, "0x00000000000000000000000000000000000000ff").unwrap();
    assert_eq!(a[19], 0xff);
    assert!(a[..19].iter().all(|b| *b == 0));
    assert_eq!(
        schema_address(SchemaKind::Json, "nope"),
        Err("Invalid contract address in schema: nope".to_string())
    );
    assert_eq!(
        schema_address(SchemaKind::Bin, "0x12"),
        Err("Invalid contract address in sidecar: 0x12".to_string())
    );
    assert_eq!(proxy_address("zz"), Err("Invalid HARA_HNS_PROXY address format".to_string()));
    assert_eq!(proxy_address("0x0000000000000000000000000000000000000000"), Ok([0u8; 20]));
}

#[test]
fn cursor_reads() {
    let data = [1u8, 2, 3, 4];
    let mut cur = hara::codex::decode::Cursor::new(&data);
    assert_eq!(cur.read_byte(), Ok(1));
    assert_eq!(cur.read_u16_be(), Ok(0x0203));
    assert_eq!(cur.read_bytes(2), Err("unexpected end of data"));
    assert_eq!(cur.read_bytes(1), Ok(&data[3..4]));
    assert_eq!(cur.read_byte(), Err("unexpected end of data"));
}

#[test]
fn legacy_init_writes_its_own_settings() {
    let (_, fs, r) = run_init_with(InitProfile::Legacy, &[], &[], true);
    assert_eq!(r, Ok(()));
    assert_eq!(fs[".env"], files::legacy_dot_env());
    assert_eq!(fs[".env.example"], files::legacy_dot_env_example());
    assert_eq!(fs["foundry.toml"], files::legacy_foundry_toml());
    assert!(fs["foundry.toml"].contains("${HARA_RPC_URL}"));
    assert!(fs[".env"].contains("PRIVATE_KEY="));
    assert_eq!(fs[".gitignore"], files::gitignore());
}

#[test]
fn legacy_install_steps() {
    assert!(matches!(install_start(InstallProfile::Legacy, true), InstallAction::RunInstaller));
    match after_installer(InstallProfile::Legacy, false, CommandExit::Exited(true), "/home/me/.foundry/bin/foundryup", true) {
        InstallAction::RunFoundryupDirect(p) => assert_eq!(p, "/home/me/.foundry/bin/foundryup"),
        other => panic!("unexpected {:?}", other),
    }
    match after_installer(InstallProfile::Legacy, true, CommandExit::Exited(false), "C:\\h\\foundryup.exe", true) {
        InstallAction::RunFoundryup(p) => assert_eq!(p, "C:/h/foundryup.exe"),
        other => panic!("unexpected {:?}", other),
    }
    assert_eq!(
        finish(after_installer(InstallProfile::Legacy, false, CommandExit::Exited(false), "foundryup", true)),
        Err("Foundry installer failed.\n  Make sure curl and bash (or Git Bash) are available.".to_string())
    );
}

#[test]
fn address_forms() {
    let hex40 = "00112233445566778899aabbccddeeff00112233";
    let expected: Vec<u8> = (0..20).map(|i| u8::from_str_radix(&hex40[2 * i..2 * i + 2], 16).unwrap()).collect();
    assert_eq!(proxy_address(hex40).unwrap().to_vec(), expected);
    assert_eq!(proxy_address(&format!("0x{}", hex40)).unwrap().to_vec(), expected);
    assert_eq!(proxy_address(&format!("0X{}", hex40.to_uppercase())).unwrap().to_vec(), expected);
    assert!(proxy_address(&format!("0x{}0", hex40)).is_err());
    assert!(proxy_address(&format!("0x{}", &hex40[..38])).is_err());
    assert!(proxy_address(&format!("0x{}g", &hex40[..39])).is_err());
}

#[test]
fn label_hash_is_keccak_of_the_label() {
    let mut k = Keccak::v256();
    k.update(b"mytoken");
    let mut out = [0u8; 32];
    k.finalize(&mut out);
    assert_eq!(label_hash("mytoken"), out);
}

#[test]
fn labels_are_stable_and_paths_round_trip() {
    let l = extract_label("abis/My-Token_V2.hara.json").unwrap();
    assert_eq!(l, "mytokenv2");
    assert!(l.chars().all(|c| c.is_ascii_lowercase() || c.is_ascii_digit()));
    assert_eq!(extract_label(&format!("{}.json", l)), Ok(l.clone()));

    let q = encode_output_path("Token.json");
    assert_eq!(q, "Token.abi.bin");
    assert_eq!(decode_output_path(&q), "Token.json");
    assert_eq!(decode_output_path(&encode_output_path("abis/Token.json")), "abis/Token.json");
}
