use todolint::{
    decode_lines, normalize_path, Candidate, Linter, Request, TodolintError, Verdict, Warning,
};

const PNG_HEADER: [u8; 8] = [0x89, b'P', b'N', b'G', 0x0D, 0x0A, 0x1A, 0x0A];

fn check(content: &str) -> Vec<Warning> {
    Linter::default().check("a.txt".to_string(), content.as_bytes()).unwrap()
}

fn candidate(path: &str, absolute: &str) -> Candidate {
    Candidate { path: path.to_string(), absolute: absolute.to_string() }
}

#[test]
fn marker_line_gives_one_warning() {
    let ws = check("// TODO: walk the dog");
    assert_eq!(ws.len(), 1);
    assert_eq!(ws[0].path, "a.txt");
    assert_eq!(ws[0].line_number, 1);
    assert_eq!(ws[0].line, "// TODO: walk the dog");
}

#[test]
fn referenced_todo_is_exempt() {
    assert!(check("// TODO: https://ticket.test/123").is_empty());
}

#[test]
fn punctuation_counts_as_word_boundary() {
    let ws = check("this is a hack--it should be rewritten");
    assert_eq!(ws.len(), 1);
    assert_eq!(ws[0].line, "this is a hack--it should be rewritten");
}

#[test]
fn exemption_ignores_letter_case() {
    assert!(check("// Pending: https://ticket.test/123").is_empty());
    assert!(check("// PENDING: https://ticket.test/123 hack").is_empty());
    assert!(check("/* ToDo: https://ticket.test/9 */").is_empty());
}

#[test]
fn marker_inside_a_longer_word_is_not_reported() {
    assert!(check("the hacker news").is_empty());
    assert!(check("Let's make a big to do out of it!").is_empty());
    assert!(check("").is_empty());
}

#[test]
fn line_numbers_follow_physical_lines() {
    let ws = check("fine\n  todo here\r\nfine\n\nhack");
    assert_eq!(ws.len(), 2);
    assert_eq!(ws[0].line_number, 2);
    assert_eq!(ws[0].line, "todo here");
    assert_eq!(ws[1].line_number, 5);
    assert_eq!(ws[1].line, "hack");
}

#[test]
fn only_leading_white_space_is_stripped() {
    let ws = check(" \t\u{3000}// FIXME  keep  inner  spacing \t");
    assert_eq!(ws.len(), 1);
    assert_eq!(ws[0].line, "// FIXME  keep  inner  spacing \t");
}

#[test]
fn invalid_utf8_line_is_an_io_error() {
    let content = b"fine\n\xff\xfe todo\n";
    let r = Linter::default().check("bad.txt".to_string(), content);
    assert!(matches!(r, Err(TodolintError::IOError(_))));
}

#[test]
fn decode_lines_splits_like_buffered_lines() {
    let lines = decode_lines(b"a\r\nb\n\nc\r").unwrap();
    assert_eq!(lines, vec!["a".to_string(), "b".to_string(), String::new(), "c\r".to_string()]);
    assert_eq!(decode_lines(b"").unwrap(), Vec::<String>::new());
    assert_eq!(decode_lines(b"x\n").unwrap(), vec!["x".to_string()]);
    assert!(decode_lines(b"ok\n\xc3").is_none());
}

#[test]
fn configured_markers_replace_the_defaults() {
    let linter = Linter {
        debug: None,
        skip_paths: None,
        formal_task_pattern: None,
        task_names: Some(vec!["xyzzy".to_string()]),
    };
    let ws = linter.check("f".to_string(), b"todo\nXYZZY now\nhack").unwrap();
    assert_eq!(ws.len(), 1);
    assert_eq!(ws[0].line_number, 2);
}

#[test]
fn malformed_override_is_a_regex_error() {
    let linter = Linter {
        debug: None,
        skip_paths: None,
        formal_task_pattern: Some("(".to_string()),
        task_names: None,
    };
    let r = linter.check("f".to_string(), b"todo");
    assert!(matches!(r, Err(TodolintError::RegexParseError(_))));
    assert!(matches!(linter.scan(Vec::new()), Err(TodolintError::RegexParseError(_))));
}

#[test]
fn normalize_path_cleans_lexically() {
    assert_eq!(normalize_path("a/./b/../c").unwrap(), "a/c");
    assert_eq!(normalize_path("a//b/").unwrap(), "a/b");
    assert_eq!(normalize_path("").unwrap(), ".");
}

#[test]
fn file_under_vendor_is_never_read() {
    let linter = Linter::default();
    let mut scan = linter
        .scan(vec![candidate("vendor/lib.rs", "/work/vendor/lib.rs")])
        .unwrap();
    match scan.next_request() {
        Request::Excluded(p) => assert_eq!(p, "vendor/lib.rs"),
        other => panic!("unexpected {other:?}"),
    }
    let verdict = scan.feed(b"// hack").unwrap();
    assert!(matches!(verdict, Verdict::NotRequested));
    assert!(matches!(scan.next_request(), Request::Finished));
    assert!(scan.into_warnings().is_empty());
}

#[test]
fn binary_content_is_not_scanned() {
    let linter = Linter::default();
    let mut scan = linter.scan(vec![candidate("notes.txt", "/work/notes.txt")]).unwrap();
    assert!(matches!(scan.next_request(), Request::Read(_)));
    let mut content = PNG_HEADER.to_vec();
    content.extend_from_slice(b"hack\n");
    match scan.feed(&content).unwrap() {
        Verdict::NotText(m) => assert_eq!(m, "image/png"),
        other => panic!("unexpected {other:?}"),
    }
    assert!(scan.warnings().is_empty());
}

fn run(linter: &Linter, files: &[(&str, &str, &[u8])]) -> Vec<(String, u64, String)> {
    let cands = files.iter().map(|(p, a, _)| candidate(p, a)).collect();
    let mut scan = linter.scan(cands).unwrap();
    let mut i = 0;
    loop {
        match scan.next_request() {
            Request::Read(p) => {
                assert_eq!(p, files[i].0);
                scan.feed(files[i].2).unwrap();
            }
            Request::Excluded(_) => {}
            Request::Finished => break,
        }
        i += 1;
    }
    scan.into_warnings()
        .into_iter()
        .map(|w| (w.path, w.line_number, w.line))
        .collect()
}

#[test]
fn scan_keeps_candidate_then_line_order_and_is_repeatable() {
    let linter = Linter::default();
    let files: [(&str, &str, &[u8]); 4] = [
        ("b.rs", "/w/b.rs", b"// hack\nok\n  // todo: later"),
        ("node_modules/x.js", "/w/node_modules/x.js", b"// hack"),
        ("a.rs", "/w/a.rs", b"// workaround"),
        (".git/HEAD", "/w/.git/HEAD", b"todo"),
    ];
    let first = run(&linter, &files);
    assert_eq!(
        first,
        vec![
            ("b.rs".to_string(), 1, "// hack".to_string()),
            ("b.rs".to_string(), 3, "// todo: later".to_string()),
            ("a.rs".to_string(), 1, "// workaround".to_string()),
        ]
    );
    assert_eq!(run(&linter, &files), first);
}

#[test]
fn empty_scan_finishes_at_once() {
    let mut scan = Linter::default().scan(Vec::new()).unwrap();
    assert!(matches!(scan.next_request(), Request::Finished));
    assert!(matches!(scan.feed(b"todo").unwrap(), Verdict::NotRequested));
}

#[test]
fn failed_feed_stops_the_scan_without_partial_result() {
    let linter = Linter::default();
    let mut scan = linter
        .scan(vec![
            candidate("a.txt", "/w/a.txt"),
            candidate("b.txt", "/w/b.txt"),
            candidate("c.txt", "/w/c.txt"),
        ])
        .unwrap();
    assert!(matches!(scan.next_request(), Request::Read(_)));
    assert!(matches!(scan.feed(b"// hack").unwrap(), Verdict::Scanned));
    assert_eq!(scan.warnings().len(), 1);
    assert!(matches!(scan.next_request(), Request::Read(_)));
    let r = scan.feed(b"\xEF\xBB\xBFnotes\ncaf\xe9 todo\n");
    assert!(matches!(r, Err(TodolintError::IOError(_))));
    assert!(scan.warnings().is_empty());
    assert!(matches!(scan.next_request(), Request::Finished));
    assert!(matches!(scan.feed(b"// hack").unwrap(), Verdict::NotRequested));
    assert!(scan.into_warnings().is_empty());
}
