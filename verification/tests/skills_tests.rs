use mentalist::skills::{
    finish_skill, frontmatter_error_message, is_valid_skill_name, split_skill_file, Skill, SkillExecutor, SkillMetadata,
    SKILL_SCRIPT_TIMEOUT_SECS,
};

fn meta(name: &str, description: &str) -> SkillMetadata {
    SkillMetadata { name: name.into(), description: description.into(), version: None, author: None, extra: vec![] }
}

fn skill(name: &str, path: &str) -> Skill {
    Skill { path: path.into(), metadata: meta(name, "does things"), instructions: "Do it.".into() }
}

#[test]
fn skill_file_sections() {
    let (front, body) = split_skill_file("---\nname: greet\ndescription: Says hi\n---\n\n  Say hello.  \n").unwrap();
    assert_eq!(front, "\nname: greet\ndescription: Says hi\n");
    assert_eq!(body, "Say hello.");
    let (_, body) = split_skill_file("---\nname: a\n---\nx --- y").unwrap();
    assert_eq!(body, "x --- y");
}

#[test]
fn skill_file_errors() {
    assert_eq!(split_skill_file("name: x").unwrap_err(), "SKILL.md must start with --- for frontmatter");
    assert_eq!(split_skill_file("---\nname: x\n").unwrap_err(), "Invalid SKILL.md frontmatter separator");
    assert_eq!(split_skill_file("---\n  \n---\nbody").unwrap_err(), "Empty frontmatter in SKILL.md");
    assert_eq!(frontmatter_error_message(), "Failed to parse SKILL.md frontmatter");
}

#[test]
fn skill_metadata_checks() {
    assert_eq!(finish_skill("/s".into(), meta("", "d"), "i".into()).err().unwrap(), "Skill name is required");
    assert_eq!(finish_skill("/s".into(), meta("n", ""), "i".into()).err().unwrap(), "Skill description is required");
    let s = finish_skill("/s".into(), meta("n", "d"), "i".into()).ok().unwrap();
    assert_eq!(s.path, "/s");
    assert_eq!(s.instructions, "i");
}

#[test]
fn skill_names() {
    assert!(is_valid_skill_name("web-search_2"));
    assert!(is_valid_skill_name("données"));
    assert!(!is_valid_skill_name("../etc"));
    assert!(!is_valid_skill_name("a b"));
    assert!(is_valid_skill_name(""));
}

#[test]
fn skills_kept_by_name_last_wins() {
    let mut ex = SkillExecutor::new("/skills".into());
    ex.replace_skills(vec![skill("a", "/skills/a1"), skill("b", "/skills/b"), skill("a", "/skills/a2")]);
    assert_eq!(ex.skills.len(), 2);
    assert_eq!(ex.get("a").unwrap().path, "/skills/a2");
    assert_eq!(ex.get("b").unwrap().path, "/skills/b");
    assert!(ex.get("c").is_none());
    let defs = ex.definitions();
    assert_eq!(defs.len(), 2);
    assert_eq!(defs[0].parameters, "{\"properties\":{\"input\":{\"type\":\"string\"}},\"type\":\"object\"}");
}

#[test]
fn resolving_a_skill_call() {
    let mut ex = SkillExecutor::new("/skills".into());
    ex.replace_skills(vec![skill("greet", "/skills/greet")]);
    assert_eq!(ex.resolve("greet").ok().unwrap().path, "/skills/greet");
    assert_eq!(ex.resolve("nope").err().unwrap(), "Skill 'nope' not found");
    assert_eq!(
        ex.resolve("a/b").err().unwrap(),
        "Invalid skill name: a/b (only alphanumeric, _, - allowed)"
    );
}

#[test]
fn skill_scripts_and_messages() {
    assert_eq!(SkillExecutor::scripts(), ["run.sh", "run.py", "run.js"]);
    assert_eq!(SkillExecutor::interpreter("run.sh"), Some("bash"));
    assert_eq!(SkillExecutor::interpreter("run.py"), Some("python"));
    assert_eq!(SkillExecutor::interpreter("run.js"), Some("node"));
    assert_eq!(SkillExecutor::interpreter("run.rb"), None);
    assert_eq!(SkillExecutor::activated_message("g"), "Skill 'g' activated. Instructions loaded into context.");
    assert_eq!(SkillExecutor::escape_message(), "Skill path escapes skills directory");
    assert_eq!(
        SkillExecutor::not_executable_message("run.sh"),
        "Skill script \"run.sh\" is not executable. Please run 'chmod +x' on it."
    );
    assert_eq!(SkillExecutor::timeout_message(), "Skill script execution timed out after 30s");
    assert_eq!(SkillExecutor::failed_message("err"), "Skill script failed: err");
    assert_eq!(
        SkillExecutor::no_script_message("/s/g/scripts"),
        "No executable script found in \"/s/g/scripts\". Looked for: [\"run.sh\", \"run.py\", \"run.js\"]"
    );
    let ex = SkillExecutor::new("/skills".into());
    assert_eq!(ex.validator.max_execution_time, 60);
}

#[test]
fn skill_paths_stay_under_root() {
    assert!(SkillExecutor::check_within_root("/srv/skills/a", "/srv/skills").is_ok());
    assert_eq!(
        SkillExecutor::check_within_root("/srv/skills-other/a", "/srv/skills"),
        Err("Skill path escapes skills directory".to_string())
    );
    assert!(SkillExecutor::check_within_root("/etc", "/srv/skills").is_err());
}

#[test]
fn skill_script_timeout_matches_message() {
    assert_eq!(SKILL_SCRIPT_TIMEOUT_SECS, 30);
    assert_eq!(SkillExecutor::timeout_message(), "Skill script execution timed out after 30s");
}
