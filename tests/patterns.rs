use todolint::{
    default_skip_paths, default_task_names, generate_skip_path_pattern, generate_task_pattern,
    join, Pattern, CONFIGURATION_FILENAME, DEFAULT_FORMAL_TASK_PATTERN, TEXT_MIMETYPE_PATTERN,
};

#[test]
fn test_default_path_exclusion_pattern() {
    let pattern = generate_skip_path_pattern(&default_skip_paths()).unwrap();
    assert!(pattern.is_match(CONFIGURATION_FILENAME));
    assert!(pattern.is_match(".git"));
    assert!(pattern.is_match("./.git"));
    assert!(pattern.is_match("../.git"));
    assert!(pattern.is_match("node_modules"));
    assert!(pattern.is_match("target"));
    assert!(pattern.is_match("vendor"));
}

#[test]
fn test_default_formal_task_pattern() {
    let pattern = Pattern::new(DEFAULT_FORMAL_TASK_PATTERN).unwrap();
    assert!(pattern.is_match("PENDING: https://ticket.test/123"));
    assert!(pattern.is_match("Pending: https://ticket.test/123"));
    assert!(pattern.is_match("pending: https://ticket.test/123"));
    assert!(!pattern.is_match("pending:"));
}

#[test]
fn test_default_task_pattern() {
    let pattern = generate_task_pattern(&default_task_names()).unwrap();
    assert!(pattern.is_match("BAND-AID"));
    assert!(pattern.is_match("BAND AID"));
    assert!(pattern.is_match("BANDAID"));
    assert!(!pattern.is_match("BAND"));
    assert!(pattern.is_match("hack"));
    assert!(!pattern.is_match("hacker"));
    assert!(pattern.is_match("this is a hack--it should be rewritten"));
    assert!(pattern.is_match("this is a hack. it should be rewritten"));
    assert!(pattern.is_match("this is a hack and it should be rewritten"));
    assert!(pattern.is_match("TO-DO"));
    assert!(pattern.is_match("TODO"));
    assert!(pattern.is_match("TODO:"));
    assert!(pattern.is_match("TODO: walk the dog"));
    assert!(pattern.is_match("Todo"));
    assert!(pattern.is_match("Todo:"));
    assert!(pattern.is_match("Todo: walk the dog"));
    assert!(pattern.is_match("todo"));
    assert!(pattern.is_match("todo:"));
    assert!(pattern.is_match("todo: walk the dog"));
    assert!(!pattern.is_match("Let's make a big to do out of it!"));
}

#[test]
fn test_text_mimetype_pattern() {
    let pattern = &Pattern::new(TEXT_MIMETYPE_PATTERN).unwrap();
    assert!(pattern.is_match("text/markdown"));
    assert!(pattern.is_match("text/plain"));
    assert!(pattern.is_match("text/x-c"));
    assert!(pattern.is_match("text/x-c++"));
    assert!(!pattern.is_match("application/octet-stream"));
}

#[test]
fn join_puts_separator_between_parts() {
    let parts = vec!["a".to_string(), "b".to_string(), "c".to_string()];
    assert_eq!(join(&parts, "|"), "a|b|c");
    assert_eq!(join(&parts[..1], "|"), "a");
    assert_eq!(join(&[], "|"), "");
}

#[test]
fn skip_path_pattern_source_is_exact() {
    let names = vec!["a".to_string(), "b".to_string()];
    let pattern = generate_skip_path_pattern(&names).unwrap();
    assert_eq!(pattern.as_str(), "^(.*(/|\\\\))?(a|b)((/|\\\\).*)?$");
}

#[test]
fn task_pattern_source_is_exact() {
    let names = vec!["x".to_string(), "y z".to_string()];
    let pattern = generate_task_pattern(&names).unwrap();
    assert_eq!(pattern.as_str(), "(?i)^.*\\b(x|y z)\\b.*$");
}

#[test]
fn skip_pattern_excludes_paths_under_excluded_directories() {
    let pattern = generate_skip_path_pattern(&default_skip_paths()).unwrap();
    assert!(pattern.is_match("/work/project/vendor/lib.rs"));
    assert!(pattern.is_match("/work/project/node_modules/pkg/index.js"));
    assert!(pattern.is_match("/work/project/.git/config"));
    assert!(pattern.is_match("/work/project/todolint.toml"));
    assert!(pattern.is_match("C:\\work\\target\\out.txt"));
    assert!(!pattern.is_match("/work/project/src/lib.rs"));
    assert!(!pattern.is_match("/work/project/targets/notes.txt"));
    assert!(!pattern.is_match("/work/project/my_vendor/lib.rs"));
}

#[test]
fn every_default_marker_alone_matches_in_any_case() {
    let pattern = generate_task_pattern(&default_task_names()).unwrap();
    for name in default_task_names() {
        assert!(pattern.is_match(&name), "{name}");
        assert!(pattern.is_match(&name.to_uppercase()), "{name}");
        let word = format!("x{}x", name);
        assert!(!pattern.is_match(&word), "{word}");
    }
    assert_eq!(default_task_names().len(), 30);
}

#[test]
fn formal_pattern_exempts_referenced_markers_in_any_case() {
    let pattern = Pattern::new(DEFAULT_FORMAL_TASK_PATTERN).unwrap();
    assert!(pattern.is_match("// TODO: https://ticket.test/123"));
    assert!(pattern.is_match("# todo: https://ticket.test/123"));
    assert!(pattern.is_match("FIXME: jira:ABC-1"));
    assert!(!pattern.is_match("// TODO: walk the dog"));
    assert!(!pattern.is_match("// hack: https://ticket.test/123 is not pending-style"));
}

#[test]
fn invalid_source_is_refused() {
    assert!(Pattern::new("(unclosed").is_err());
    let names = vec!["[".to_string()];
    assert!(generate_task_pattern(&names).is_err());
}
