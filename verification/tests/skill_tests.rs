use arcee_code::tools::skill::{
    available_skills, is_bundled_skill, parse_skill_file, skill_stem, SkillRequest, SkillTool,
};

#[test]
fn test_parse_skill_file_with_frontmatter() {
    let content = "---\ndescription: Test skill\nauthor: test\n---\nDo the thing.";
    let (meta, body) = parse_skill_file(content);
    assert_eq!(meta.get("description").unwrap(), "Test skill");
    assert_eq!(meta.get("author").unwrap(), "test");
    assert_eq!(body, "Do the thing.");
}

#[test]
fn test_parse_skill_file_without_frontmatter() {
    let content = "Just a prompt body.";
    let (meta, body) = parse_skill_file(content);
    assert!(meta.is_empty());
    assert_eq!(body, "Just a prompt body.");
}

#[test]
fn frontmatter_values_are_unquoted_and_later_keys_win() {
    let content = "---\nname: \"x\"\nname: y\nnoColon\n---\n\n  body";
    let (meta, body) = parse_skill_file(content);
    assert_eq!(meta.get("name"), Some("y"));
    assert_eq!(meta.entries.len(), 2);
    assert_eq!(meta.entries[0].1, "x");
    assert_eq!(body, "body");
}

#[test]
fn unclosed_frontmatter_is_all_body() {
    let content = "---\ndescription: x\nno end";
    let (meta, body) = parse_skill_file(content);
    assert!(meta.is_empty());
    assert_eq!(body, content);
}

#[test]
fn expand_with_description_and_args() {
    let req = SkillRequest { skill: "commit".to_string(), args: "-m fix".to_string() };
    let o = SkillTool::finish(&req, None, Some("---\ndescription: Make a commit\n---\nCommit it."), &vec![]);
    assert!(!o.is_error);
    assert_eq!(
        o.render(),
        "loaded skill 'commit'\n\n# Skill: commit\nMake a commit\n\nCommit it.\n\nArguments: -m fix"
    );
}

#[test]
fn project_skill_overrides_bundled() {
    let req = SkillRequest { skill: "commit".to_string(), args: String::new() };
    let o = SkillTool::finish(&req, Some("Local.".to_string()), Some("Bundled."), &vec![]);
    assert_eq!(o.render(), "loaded skill 'commit'\n\n# Skill: commit\n\nLocal.");
}

#[test]
fn invalid_and_unknown_skill_names() {
    let bad = SkillRequest { skill: "../etc".to_string(), args: String::new() };
    let o = SkillTool::finish(&bad, None, None, &vec![]);
    assert!(o.is_error);
    assert_eq!(
        o.render(),
        "Invalid skill name '../etc'. Skill names must be simple identifiers (no path separators)."
    );
    let missing = SkillRequest { skill: "nope".to_string(), args: String::new() };
    let avail = available_skills(&vec!["mine".to_string(), "commit".to_string()]);
    let o = SkillTool::finish(&missing, None, None, &avail);
    assert!(o.is_error);
    assert_eq!(o.render(), "Unknown skill 'nope'. Available skills: commit, review-pr, simplify, mine");
}

#[test]
fn skill_file_names() {
    assert_eq!(skill_stem("deploy.md"), Some("deploy".to_string()));
    assert_eq!(skill_stem("a.b.md"), Some("a.b".to_string()));
    assert_eq!(skill_stem(".md"), None);
    assert_eq!(skill_stem("notes.txt"), None);
    assert_eq!(skill_stem("README"), None);
    assert!(is_bundled_skill("review-pr"));
    assert!(!is_bundled_skill("deploy"));
}
