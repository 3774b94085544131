use hara::names::ContractNames;
use hara::prompt::{ask_reset_internal, reset_prompt};

#[test]
fn test_contract_names() {
    let names = ContractNames::from_raw("MyContract");
    assert_eq!(names.pascal, "MyContract");
    assert_eq!(names.camel, "myContract");
    assert_eq!(names.lower, "mycontract");

    let names_snake = ContractNames::from_raw("simple_token");
    assert_eq!(names_snake.pascal, "SimpleToken");
    assert_eq!(names_snake.camel, "simpleToken");
    assert_eq!(names_snake.lower, "simple_token");
}

#[test]
fn test_ask_reset_yes() {
    let prompt = reset_prompt(&["src"]);
    assert!(prompt.contains("   - src/\n"));
    let result = ask_reset_internal(Some("y\n"));
    assert!(result);
}

#[test]
fn test_ask_reset_no() {
    let prompt = reset_prompt(&["src"]);
    assert!(prompt.ends_with("Do you want to reset? (y/N): "));
    let result = ask_reset_internal(Some("n\n"));
    assert!(!result);
}

#[test]
fn test_ask_reset_default() {
    let _prompt = reset_prompt(&["src"]);
    let result = ask_reset_internal(Some("\n"));
    assert!(!result);
}

#[test]
fn ask_reset_accepts_yes_in_any_case_with_spaces() {
    assert!(ask_reset_internal(Some("  YES \r\n")));
    assert!(ask_reset_internal(Some("Y")));
    assert!(!ask_reset_internal(Some("yes please")));
    assert!(!ask_reset_internal(None));
}

#[test]
fn reset_prompt_lists_every_directory() {
    let prompt = reset_prompt(&["src", "src/libraries", "test"]);
    let expected = "\u{26a0}\u{fe0f}  WARNING: You are about to RESET the following directories:\n   - src/\n   - src/libraries/\n   - test/\n   All files inside these directories will be PERMANENTLY DELETED.\nDo you want to reset? (y/N): ";
    assert_eq!(prompt, expected);
}

#[test]
fn contract_names_lowercase_keeps_separators() {
    let names = ContractNames::from_raw("My_Token");
    assert_eq!(names.lower, "my_token");
    assert_eq!(names.pascal, "MyToken");
    assert_eq!(names.camel, "myToken");
}
