use arcee_code::config::PermissionRule;
use arcee_code::permissions::{
    check_tool_permission, classify_bash_danger, should_ask_permission, DangerLevel,
    PermissionMode, PermissionResult, PermissionStrictness,
};
use arcee_code::tool_input::{ArgField, ArgValue, ToolInput};

fn empty_input() -> ToolInput {
    ToolInput { fields: Some(vec![]), rendered: "{}".to_string() }
}

fn string_input(key: &str, value: &str) -> ToolInput {
    ToolInput {
        fields: Some(vec![ArgField {
            key: key.to_string(),
            value: ArgValue::Str(value.to_string()),
            rendered: format!("\"{}\"", value),
        }]),
        rendered: format!("{{\"{}\":\"{}\"}}", key, value),
    }
}

#[test]
fn test_classify_bash_danger_safe() {
    assert_eq!(classify_bash_danger("ls -la"), DangerLevel::Safe);
    assert_eq!(classify_bash_danger("git log --oneline"), DangerLevel::Safe);
    assert_eq!(classify_bash_danger("git status"), DangerLevel::Safe);
    assert_eq!(classify_bash_danger("git diff HEAD"), DangerLevel::Safe);
    assert_eq!(classify_bash_danger("cargo test"), DangerLevel::Safe);
    assert_eq!(classify_bash_danger("cargo build"), DangerLevel::Safe);
    assert_eq!(classify_bash_danger("echo hello"), DangerLevel::Safe);
    assert_eq!(classify_bash_danger("cat foo.txt"), DangerLevel::Safe);
    assert_eq!(classify_bash_danger("pwd"), DangerLevel::Safe);
    assert_eq!(classify_bash_danger("cd /tmp"), DangerLevel::Safe);
}

#[test]
fn test_classify_bash_danger_moderate() {
    assert_eq!(classify_bash_danger("rm foo.txt"), DangerLevel::Moderate);
    assert_eq!(classify_bash_danger("git push origin main"), DangerLevel::Moderate);
    assert_eq!(classify_bash_danger("mv a.txt b.txt"), DangerLevel::Moderate);
    assert_eq!(classify_bash_danger("npm install express"), DangerLevel::Moderate);
    assert_eq!(classify_bash_danger("sudo apt update"), DangerLevel::Moderate);
}

#[test]
fn test_classify_bash_danger_destructive() {
    assert_eq!(classify_bash_danger("rm -rf /"), DangerLevel::Destructive);
    assert_eq!(classify_bash_danger("rm -fr ."), DangerLevel::Destructive);
    assert_eq!(classify_bash_danger("git push --force"), DangerLevel::Destructive);
    assert_eq!(classify_bash_danger("git push -f origin main"), DangerLevel::Destructive);
    assert_eq!(classify_bash_danger("git reset --hard HEAD~1"), DangerLevel::Destructive);
    assert_eq!(classify_bash_danger("git clean -fd"), DangerLevel::Destructive);
}

#[test]
fn test_classify_bash_danger_compound_commands() {
    assert_eq!(classify_bash_danger("ls && rm -rf /tmp"), DangerLevel::Destructive);
    assert_eq!(classify_bash_danger("git status; git log"), DangerLevel::Safe);
    assert_eq!(classify_bash_danger("cargo test && git push"), DangerLevel::Moderate);
}

#[test]
fn test_should_ask_permission_read_only() {
    let input = empty_input();
    assert!(!should_ask_permission("Read", &input, true, PermissionStrictness::High));
    assert!(!should_ask_permission("Read", &input, true, PermissionStrictness::Medium));
    assert!(!should_ask_permission("Read", &input, true, PermissionStrictness::Low));
}

#[test]
fn test_should_ask_permission_bash_safe() {
    let input = string_input("command", "git log");
    assert!(should_ask_permission("Bash", &input, false, PermissionStrictness::High));
    assert!(!should_ask_permission("Bash", &input, false, PermissionStrictness::Medium));
    assert!(!should_ask_permission("Bash", &input, false, PermissionStrictness::Low));
}

#[test]
fn test_should_ask_permission_bash_moderate() {
    let input = string_input("command", "rm foo.txt");
    assert!(should_ask_permission("Bash", &input, false, PermissionStrictness::High));
    assert!(should_ask_permission("Bash", &input, false, PermissionStrictness::Medium));
    assert!(!should_ask_permission("Bash", &input, false, PermissionStrictness::Low));
}

#[test]
fn test_should_ask_permission_bash_destructive() {
    let input = string_input("command", "rm -rf /");
    assert!(should_ask_permission("Bash", &input, false, PermissionStrictness::High));
    assert!(should_ask_permission("Bash", &input, false, PermissionStrictness::Medium));
    assert!(should_ask_permission("Bash", &input, false, PermissionStrictness::Low));
}

#[test]
fn test_should_ask_permission_write_edit() {
    let input = string_input("file_path", "/tmp/foo");
    assert!(should_ask_permission("Write", &input, false, PermissionStrictness::High));
    assert!(should_ask_permission("Write", &input, false, PermissionStrictness::Medium));
    assert!(!should_ask_permission("Write", &input, false, PermissionStrictness::Low));

    assert!(should_ask_permission("Edit", &input, false, PermissionStrictness::High));
    assert!(should_ask_permission("Edit", &input, false, PermissionStrictness::Medium));
    assert!(!should_ask_permission("Edit", &input, false, PermissionStrictness::Low));
}

#[test]
fn test_check_tool_permission_integration() {
    let input = string_input("command", "ls");
    let result = check_tool_permission(
        "Bash", &input, false,
        PermissionMode::Default, &[], &[],
        PermissionStrictness::Medium,
    );
    assert_eq!(result, PermissionResult::Allow);

    let input = string_input("command", "rm foo");
    let result = check_tool_permission(
        "Bash", &input, false,
        PermissionMode::Default, &[], &[],
        PermissionStrictness::Medium,
    );
    assert_eq!(result, PermissionResult::Ask);

    let input = string_input("command", "rm -rf /");
    let result = check_tool_permission(
        "Bash", &input, false,
        PermissionMode::Bypass, &[], &[],
        PermissionStrictness::High,
    );
    assert_eq!(result, PermissionResult::Allow);
}

#[test]
fn deny_rule_wins_over_allow_rule() {
    let input = string_input("command", "ls");
    let allow = vec![PermissionRule { tool_name: "Bash".to_string(), pattern: None }];
    let deny = vec![PermissionRule { tool_name: "*".to_string(), pattern: Some("*".to_string()) }];
    let result = check_tool_permission(
        "Bash", &input, false,
        PermissionMode::Bypass, &allow, &deny,
        PermissionStrictness::Low,
    );
    assert_eq!(result, PermissionResult::Deny("Denied by rule: *".to_string()));
}

#[test]
fn allow_rule_skips_confirmation() {
    let input = string_input("command", "rm -rf /");
    let allow = vec![PermissionRule { tool_name: "Bash".to_string(), pattern: None }];
    let result = check_tool_permission(
        "Bash", &input, false,
        PermissionMode::Default, &allow, &[],
        PermissionStrictness::High,
    );
    assert_eq!(result, PermissionResult::Allow);
}

#[test]
fn rule_with_specific_pattern_does_not_apply() {
    let input = string_input("command", "ls");
    let deny = vec![PermissionRule { tool_name: "Bash".to_string(), pattern: Some("rm *".to_string()) }];
    let result = check_tool_permission(
        "Bash", &input, false,
        PermissionMode::Default, &[], &deny,
        PermissionStrictness::Medium,
    );
    assert_eq!(result, PermissionResult::Allow);
}

#[test]
fn danger_of_compound_is_the_worst_part() {
    assert_eq!(classify_bash_danger("echo a | rm -rf b"), DangerLevel::Destructive);
    assert_eq!(classify_bash_danger("pwd || git push"), DangerLevel::Moderate);
    assert_eq!(classify_bash_danger(""), DangerLevel::Safe);
}
