use arcee_code::path_safety::{join_path, resolve_and_validate, safe_truncate};

#[test]
fn test_safe_truncate_ascii() {
    assert_eq!(safe_truncate("hello world", 5), "hello");
}

#[test]
fn test_safe_truncate_utf8() {
    let s = "日本語";
    assert_eq!(safe_truncate(s, 3), "日");
    assert_eq!(safe_truncate(s, 4), "日");
    assert_eq!(safe_truncate(s, 6), "日本");
}

#[test]
fn test_dev_paths_blocked() {
    let cwd = "/tmp";
    assert!(resolve_and_validate("/dev/zero", cwd).is_err());
    assert!(resolve_and_validate("/proc/self/environ", cwd).is_err());
    assert!(resolve_and_validate("/sys/class/net", cwd).is_err());
}

#[test]
fn safe_truncate_longer_limit_keeps_all() {
    assert_eq!(safe_truncate("abc", 10), "abc");
    assert_eq!(safe_truncate("", 0), "");
}

#[test]
fn join_path_relative_and_absolute() {
    assert_eq!(join_path("a.txt", "/tmp"), "/tmp/a.txt");
    assert_eq!(join_path("a.txt", "/tmp/"), "/tmp/a.txt");
    assert_eq!(join_path("/etc/x", "/tmp"), "/etc/x");
}

#[test]
fn ordinary_path_is_accepted() {
    assert_eq!(resolve_and_validate("src/main.rs", "/home/u"), Ok("/home/u/src/main.rs".to_string()));
    assert!(resolve_and_validate("dev/zero", "/home/u").is_ok());
}

use arcee_code::path_safety::{canonical_in_parent, canonical_plan, canonical_whole, Canonicalize};

#[test]
fn canonical_plan_goes_through_parent_for_new_files() {
    assert!(matches!(canonical_plan("/tmp/x/a.txt", true), Ok(Canonicalize::Whole)));
    match canonical_plan("/tmp/x/new.txt", false) {
        Ok(Canonicalize::Parent { parent, name }) => {
            assert_eq!(parent, "/tmp/x");
            assert_eq!(name, "new.txt");
        }
        _ => panic!("expected the parent"),
    }
    match canonical_plan("/", false) {
        Err(e) => assert_eq!(e, "Invalid file path: /"),
        _ => panic!("expected a refusal"),
    }
}

#[test]
fn canonical_results_and_errors() {
    assert_eq!(canonical_whole("/a/../b", Ok("/b".to_string())), Ok("/b".to_string()));
    assert_eq!(
        canonical_whole("/a", Err("denied".to_string())),
        Err("Cannot resolve path /a: denied".to_string())
    );
    assert_eq!(
        canonical_in_parent("/l/new.txt", "/l", "new.txt", Some(Ok("/real".to_string()))),
        Ok("/real/new.txt".to_string())
    );
    assert_eq!(canonical_in_parent("/no/new.txt", "/no", "new.txt", None), Ok("/no/new.txt".to_string()));
    assert_eq!(
        canonical_in_parent("/l/n", "/l", "n", Some(Err("loop".to_string()))),
        Err("Cannot resolve parent /l: loop".to_string())
    );
}
