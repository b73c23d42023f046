use nota_bot::json::Json;
use nota_bot::tools::edit::EditArgs;
use nota_bot::tools::{arguments_complete, tool_request, Bash, Edit, Glob, LoadSkill, Read, ToolRequest, Write};

fn s(t: &str) -> Json {
    Json::Str(t.to_string())
}

fn obj(fields: Vec<(&str, Json)>) -> Json {
    Json::Object(fields.into_iter().map(|(k, v)| (k.to_string(), v)).collect())
}

fn required_contains(params: &Json, name: &str) -> bool {
    params.get("required").unwrap().as_array().unwrap().contains(&s(name))
}

#[test]
fn bash_name_and_description_contract() {
    assert_eq!(Bash.name(), "bash");
    assert!(!Bash.description().is_empty());
}

#[test]
fn parameters_require_command() {
    let params = Bash.parameters();
    assert_eq!(params.get("type"), Some(&s("object")));
    assert!(params.get("properties").unwrap().get("command").unwrap().is_object());
    assert!(required_contains(&params, "command"));
}

#[test]
fn edit_name_and_description_contract() {
    assert_eq!(Edit.name(), "edit");
    assert!(!Edit.description().is_empty());
}

#[test]
fn parameters_require_path_old_new() {
    let params = Edit.parameters();
    assert!(required_contains(&params, "path"));
    assert!(required_contains(&params, "old_string"));
    assert!(required_contains(&params, "new_string"));
}

#[test]
fn glob_name_and_description_contract() {
    assert_eq!(Glob.name(), "glob");
    assert!(!Glob.description().is_empty());
}

#[test]
fn parameters_require_pattern() {
    let params = Glob.parameters();
    assert!(required_contains(&params, "pattern"));
}

#[test]
fn load_skill_name_and_description_contract() {
    assert_eq!(LoadSkill.name(), "load_skill");
    assert!(!LoadSkill.description().is_empty());
}

#[test]
fn name_matches_system_prompt() {
    assert_eq!(LoadSkill.name(), "load_skill");
}

#[test]
fn parameters_require_name() {
    let params = LoadSkill.parameters();
    assert_eq!(params.get("type"), Some(&s("object")));
    assert!(required_contains(&params, "name"));
}

#[test]
fn read_name_and_description_contract() {
    assert_eq!(Read.name(), "read");
    assert!(!Read.description().is_empty());
}

#[test]
fn parameters_require_path() {
    let params = Read.parameters();
    assert_eq!(params.get("type"), Some(&s("object")));
    assert!(required_contains(&params, "path"));
}

#[test]
fn write_name_and_description_contract() {
    assert_eq!(Write.name(), "write");
    assert!(!Write.description().is_empty());
}

#[test]
fn parameters_require_path_and_content() {
    let params = Write.parameters();
    assert!(required_contains(&params, "path"));
    assert!(required_contains(&params, "content"));
}

#[test]
fn parameters_are_objects() {
    for params in [Bash.parameters(), Read.parameters(), Write.parameters(), Edit.parameters()] {
        assert!(params.is_object(), "parameters should be a JSON object, got: {params:?}");
    }
}

#[test]
fn names_are_non_empty_unique_and_snake_case() {
    let names: Vec<&str> = vec![Bash.name(), Read.name(), Write.name(), Edit.name()];
    assert!(names.iter().all(|n| !n.is_empty()), "empty name: {names:?}");
    let mut sorted = names.clone();
    sorted.sort();
    sorted.dedup();
    assert_eq!(sorted.len(), names.len(), "duplicate names: {names:?}");
    for n in &names {
        assert!(
            n.chars().all(|c| c.is_ascii_alphanumeric() || c == '_' || c == '-'),
            "name contains invalid chars (space/unicode etc.): {n}"
        );
    }
}

#[test]
fn edit_parameters_describe_replace_all_default() {
    let params = Edit.parameters();
    let flag = params.get("properties").unwrap().get("replace_all").unwrap();
    assert_eq!(flag.get("type"), Some(&s("boolean")));
    assert_eq!(flag.get("default"), Some(&Json::Bool(false)));
    assert_eq!(params.get("required").unwrap().as_array().unwrap().len(), 3);
}

#[test]
fn edit_replaces_first_occurrence() {
    assert_eq!(Edit.apply("foo bar foo", "foo", "baz", false), "baz bar foo");
}

#[test]
fn edit_replaces_all_when_flag_set() {
    assert_eq!(Edit.apply("foo bar foo", "foo", "baz", true), "baz bar baz");
}

#[test]
fn edit_without_match_keeps_content_and_reports_success() {
    assert_eq!(Edit.apply("unchanged", "NOT_PRESENT", "x", false), "unchanged");
    assert_eq!(Edit.apply("unchanged", "NOT_PRESENT", "x", true), "unchanged");
    assert_eq!(Edit.done_message(), "File edited successfully.");
}

#[test]
fn edit_matches_std_on_edge_cases() {
    let cases = [
        ("abc", "", "x"),
        ("", "", "x"),
        ("aaaa", "aa", "b"),
        ("aaa", "aa", "b"),
        ("héllo wörld", "ö", "oe"),
        ("abcabc", "abc", ""),
        ("xyz", "xyzw", "q"),
        ("same same", "same", "same"),
    ];
    for (content, old, new) in cases {
        assert_eq!(Edit.apply(content, old, new, true), content.replace(old, new));
        assert_eq!(Edit.apply(content, old, new, false), content.replacen(old, new, 1));
    }
}

#[test]
fn edit_arguments_default_replace_all_to_false() {
    let args = obj(vec![("path", s("a.txt")), ("old_string", s("foo")), ("new_string", s("baz"))]);
    let a: EditArgs = Edit.arguments(&args);
    assert_eq!(a.path, "a.txt");
    assert_eq!(a.old_string, "foo");
    assert_eq!(a.new_string, "baz");
    assert!(!a.replace_all);
    let args = obj(vec![
        ("path", s("a.txt")),
        ("old_string", s("foo")),
        ("new_string", s("baz")),
        ("replace_all", Json::Bool(true)),
    ]);
    assert!(Edit.arguments(&args).replace_all);
    let missing = obj(vec![("path", s("a.txt")), ("old_string", s("foo"))]);
    assert!(!arguments_complete("edit", &missing));
    assert!(arguments_complete("edit", &args));
}

#[test]
fn write_arguments_and_message() {
    let args = obj(vec![("path", s("out.txt")), ("content", s("new content"))]);
    let a = Write.arguments(&args);
    assert_eq!(a.path, "out.txt");
    assert_eq!(a.content, "new content");
    assert!(!arguments_complete("write", &obj(vec![("path", s("out.txt"))])));
    assert_eq!(Write.done_message(), "File written successfully.");
}

#[test]
fn glob_pattern_joins_path_and_pattern() {
    let args = obj(vec![("path", s("/tmp/dir")), ("pattern", s("*.rs"))]);
    assert_eq!(Glob.search_pattern(&args), "/tmp/dir/*.rs");
    let args = obj(vec![("pattern", s("Cargo.toml"))]);
    assert_eq!(Glob.search_pattern(&args), "./Cargo.toml");
    assert!(!arguments_complete("glob", &obj(vec![("path", s("."))])));
}

#[test]
fn glob_listing_puts_one_path_per_line() {
    let paths = vec!["a.rs".to_string(), "src/b.rs".to_string()];
    assert_eq!(Glob.listing(&paths), "a.rs\nsrc/b.rs");
    assert_eq!(Glob.listing(&vec![]), "");
}

#[test]
fn tool_request_dispatches_by_name() {
    let args = obj(vec![("command", s("echo hello"))]);
    match tool_request("bash", &args) {
        ToolRequest::Bash { command } => assert_eq!(command, "echo hello"),
        _ => panic!("expected a bash request"),
    }
    match tool_request("read", &obj(vec![("path", s("/tmp/x"))])) {
        ToolRequest::Read { path } => assert_eq!(path, "/tmp/x"),
        _ => panic!("expected a read request"),
    }
    match tool_request("glob", &obj(vec![("pattern", s("*.rs")), ("path", s("src"))])) {
        ToolRequest::Glob { pattern } => assert_eq!(pattern, "src/*.rs"),
        _ => panic!("expected a glob request"),
    }
    match tool_request("load_skill", &obj(vec![("name", s("greeter"))])) {
        ToolRequest::LoadSkill { name } => assert_eq!(name, "greeter"),
        _ => panic!("expected a load_skill request"),
    }
    match tool_request("ls", &args) {
        ToolRequest::Unknown { answer } => assert_eq!(answer, "unknown tool: ls"),
        _ => panic!("expected an unknown tool"),
    }
    assert!(arguments_complete("ls", &Json::Null));
    assert!(!arguments_complete("bash", &obj(vec![])));
    assert!(!arguments_complete("bash", &Json::Null));
    assert!(!arguments_complete("load_skill", &obj(vec![])));
    assert_eq!(LoadSkill.skill_name(&obj(vec![("name", s("greeter"))])), "greeter");
    assert!(!arguments_complete("read", &obj(vec![("path", Json::Bool(true))])));
}

#[test]
fn bash_output_is_decoded_as_utf8() {
    assert_eq!(Bash.output_text(b"hello\n"), "hello\n");
    assert_eq!(Bash.output_text("a\nb\nc".as_bytes()), "a\nb\nc");
    let bad = [b'o', b'k', 0xff, b'!'];
    assert_eq!(Bash.output_text(&bad), String::from_utf8_lossy(&bad));
}
