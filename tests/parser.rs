use frontmatter_parser::{
    entry_action, extract_after_trim, extract_frontmatter_str, frontmatter_from_decoded,
    is_markdown_extension, is_markdown_file, parse_content, parse_read_result, EntryAction,
    Frontmatter, FrontmatterError, Result, WalkEvent,
};

#[test]
fn test_extract_frontmatter() {
    let content = r#"---
title: Test
date: 2024-01-01
---
# Content here"#;

    let fm = extract_frontmatter_str(content).unwrap();
    assert!(fm.contains("title: Test"));
    assert!(fm.contains("date: 2024-01-01"));
}

#[test]
fn test_no_frontmatter() {
    let content = "# Just a heading\nSome content";
    assert!(extract_frontmatter_str(content).is_none());
}

#[test]
fn test_parse_content() {
    let content = r#"---
title: My Post
tags:
  - rust
  - cli
---
# Content"#;

    let fm = parse_content("test.md", content).unwrap();
    assert_eq!(fm.data["title"], "My Post");
}

#[test]
fn extract_is_exact_for_each_terminator_style() {
    assert_eq!(extract_frontmatter_str("---\na: 1\n---\nbody"), Some("a: 1"));
    assert_eq!(extract_frontmatter_str("---\r\na: 1\r\n---\r\nbody"), Some("a: 1"));
    assert_eq!(extract_frontmatter_str("---\r\na: 1\n---"), Some("a: 1"));
    assert_eq!(extract_frontmatter_str("---\na: 1\r\n---"), Some("a: 1"));
    assert_eq!(extract_frontmatter_str("---\n\na: 1\n\n---"), Some("\na: 1\n"));
}

#[test]
fn extract_empty_block() {
    assert_eq!(extract_frontmatter_str("---\n\n---\n"), Some(""));
    assert_eq!(extract_frontmatter_str("---\r\n\r\n---"), Some(""));
}

#[test]
fn extract_skips_leading_white_space() {
    assert_eq!(extract_frontmatter_str("  \n\t---\nk: v\n---\n"), Some("k: v"));
    assert_eq!(extract_after_trim("  \n---\nk: v\n---\n"), None);
}

#[test]
fn extract_absent_without_opening_delimiter() {
    assert_eq!(extract_frontmatter_str("# Heading only"), None);
    assert_eq!(extract_frontmatter_str("--\nk: v\n---\n"), None);
    assert_eq!(extract_frontmatter_str("---k: v\n---\n"), None);
    assert_eq!(extract_frontmatter_str(""), None);
}

#[test]
fn extract_absent_when_unterminated() {
    assert_eq!(extract_frontmatter_str("---\ntitle: x\nno closing line"), None);
    assert_eq!(extract_frontmatter_str("---\n---"), None);
}

#[test]
fn extract_stops_at_first_closing_delimiter() {
    assert_eq!(extract_frontmatter_str("---\na\n---\nb\n---\n"), Some("a"));
    assert_eq!(extract_frontmatter_str("---\na\n----\n"), Some("a"));
}

#[test]
fn decoded_block_serializes_to_matching_json() {
    let fm = parse_content("post.md", "---\ntitle: My Post\ntags:\n  - a\n  - b\n---\ntext").unwrap();
    assert_eq!(fm.path, "post.md");
    let json = fm.to_json().unwrap();
    let got: serde_json::Value = serde_json::from_str(&json).unwrap();
    let want: serde_json::Value =
        serde_json::from_str(r#"{"title":"My Post","tags":["a","b"]}"#).unwrap();
    assert_eq!(got, want);
}

#[test]
fn heading_only_file_reports_no_frontmatter() {
    let r = parse_read_result("doc.md", Ok("# Heading only".to_string()));
    match r {
        Err(FrontmatterError::NoFrontmatter(p)) => assert_eq!(p, "doc.md"),
        other => panic!("unexpected outcome: {:?}", other),
    }
}

#[test]
fn invalid_yaml_reports_yaml_error() {
    let r = parse_content("bad.md", "---\nkey: [unclosed\n---\n");
    match r {
        Err(FrontmatterError::YamlError { path, .. }) => assert_eq!(path, "bad.md"),
        other => panic!("unexpected outcome: {:?}", other),
    }
}

#[test]
fn unreadable_file_reports_io_error() {
    let r = parse_read_result("gone.md", Err("No such file or directory".to_string()));
    match r {
        Err(FrontmatterError::IoError { path, message }) => {
            assert_eq!(path, "gone.md");
            assert_eq!(message, "No such file or directory");
        }
        other => panic!("unexpected outcome: {:?}", other),
    }
}

#[test]
fn decoder_outcome_is_passed_on() {
    let value: serde_yaml::Value = serde_yaml::from_str("x: 1").unwrap();
    let fm = frontmatter_from_decoded("a.md", Ok(value.clone())).unwrap();
    assert_eq!(fm.path, "a.md");
    assert_eq!(fm.data, value);
    let err = serde_yaml::from_str::<serde_yaml::Value>("a: [").unwrap_err();
    match frontmatter_from_decoded("b.md", Err(err)) {
        Err(FrontmatterError::YamlError { path, .. }) => assert_eq!(path, "b.md"),
        other => panic!("unexpected outcome: {:?}", other),
    }
}

#[test]
fn markdown_extensions_ignore_ascii_case() {
    assert!(is_markdown_extension("md"));
    assert!(is_markdown_extension("MD"));
    assert!(is_markdown_extension("Markdown"));
    assert!(!is_markdown_extension("mdx"));
    assert!(!is_markdown_extension("txt"));
    assert!(!is_markdown_extension(""));
}

#[test]
fn markdown_files_by_extension() {
    assert!(is_markdown_file("root/a.md"));
    assert!(is_markdown_file("notes/Post.MARKDOWN"));
    assert!(!is_markdown_file("root/notes.txt"));
    assert!(!is_markdown_file("README"));
    assert!(!is_markdown_file(".md"));
    assert!(!is_markdown_file("md"));
}

#[test]
fn text_files_are_never_parsed() {
    let ev = WalkEvent::Visited { path: "root/notes.txt".to_string(), is_file: true };
    assert!(matches!(entry_action(ev), EntryAction::Skip));
}

#[test]
fn directories_are_skipped() {
    let ev = WalkEvent::Visited { path: "root/sub.md".to_string(), is_file: false };
    assert!(matches!(entry_action(ev), EntryAction::Skip));
}

#[test]
fn walk_failure_is_reported() {
    match entry_action(WalkEvent::Failed("permission denied".to_string())) {
        EntryAction::Report(FrontmatterError::WalkDirError(m)) => {
            assert_eq!(m, "permission denied")
        }
        _ => panic!("walk failure not reported"),
    }
}

#[test]
fn run_keeps_good_and_bad_documents() {
    let entries = vec![
        ("root/good.md", "---\ntitle: ok\n---\n"),
        ("root/bad.md", "---\ntitle: [oops\n---\n"),
        ("root/notes.txt", "---\ntitle: ignored\n---\n"),
    ];
    let mut outcomes = Vec::new();
    for (path, text) in entries {
        let ev = WalkEvent::Visited { path: path.to_string(), is_file: true };
        match entry_action(ev) {
            EntryAction::Skip => {}
            EntryAction::Parse(p) => outcomes.push(parse_read_result(&p, Ok(text.to_string()))),
            EntryAction::Report(e) => outcomes.push(Err(e)),
        }
    }
    assert_eq!(outcomes.len(), 2);
    assert_eq!(outcomes[0].as_ref().unwrap().path, "root/good.md");
    assert!(matches!(&outcomes[1], Err(FrontmatterError::YamlError { path, .. }) if path == "root/bad.md"));
}

#[test]
fn to_json_is_pretty_printed() {
    let fm: Result<Frontmatter> = parse_content("p.md", "---\ntitle: My Post\n---\n");
    assert_eq!(fm.unwrap().to_json().unwrap(), "{\n  \"title\": \"My Post\"\n}");
}
