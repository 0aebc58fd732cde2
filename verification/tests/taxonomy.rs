use todl::tag::{format_path_line, Tag, TagKind, TagLevel};
use todl::{try_strip_leading_dot, SearchOptions, SourceKind};

#[test]
fn classify_synonyms_and_levels() {
    let cases: Vec<(&str, TagKind, TagLevel)> = vec![
        ("todo", TagKind::Todo, TagLevel::Improvement),
        ("TODO", TagKind::Todo, TagLevel::Improvement),
        ("todo!", TagKind::TodoMacro, TagLevel::Improvement),
        ("bug", TagKind::Bug, TagLevel::Fix),
        ("DEBUG", TagKind::Bug, TagLevel::Fix),
        ("fixme", TagKind::Fix, TagLevel::Fix),
        ("FiX", TagKind::Fix, TagLevel::Fix),
        ("note", TagKind::Note, TagLevel::Information),
        ("NB", TagKind::Note, TagLevel::Information),
        ("undone", TagKind::Undone, TagLevel::Information),
        ("hack", TagKind::Hack, TagLevel::Information),
        ("BODGE", TagKind::Hack, TagLevel::Information),
        ("kludge", TagKind::Hack, TagLevel::Information),
        ("xxx", TagKind::Xxx, TagLevel::Information),
        ("optimize", TagKind::Optimize, TagLevel::Improvement),
        ("OPTIMISE", TagKind::Optimize, TagLevel::Improvement),
        ("OptimizeMe", TagKind::Optimize, TagLevel::Improvement),
        ("optimiseme", TagKind::Optimize, TagLevel::Improvement),
        ("safety", TagKind::Safety, TagLevel::Information),
        ("invariant", TagKind::Invariant, TagLevel::Information),
        ("lint", TagKind::Lint, TagLevel::Information),
        ("ignored", TagKind::Ignored, TagLevel::Information),
    ];
    for (raw, kind, level) in cases {
        let parsed = TagKind::new(raw);
        assert_eq!(kind, parsed, "keyword {raw}");
        assert_eq!(level, parsed.level(), "keyword {raw}");
    }
}

#[test]
fn unknown_keyword_becomes_custom() {
    let parsed = TagKind::new("Wibble");
    assert_eq!(TagKind::Custom("Wibble".to_string()), parsed);
    assert_eq!(TagLevel::Custom, parsed.level());
    assert_eq!("Wibble", parsed.name());
    assert!(TagKind::parse("wibble").is_err());
    assert!(TagKind::parse("todo").is_ok());
}

#[test]
fn kind_names_are_canonical_upper_case() {
    assert_eq!("TODO", TagKind::Todo.name());
    assert_eq!("TODO!", TagKind::TodoMacro.name());
    assert_eq!("BUG", TagKind::Bug.name());
    assert_eq!("FIX", TagKind::Fix.name());
    assert_eq!("NOTE", TagKind::Note.name());
    assert_eq!("UNDONE", TagKind::Undone.name());
    assert_eq!("HACK", TagKind::Hack.name());
    assert_eq!("XXX", TagKind::Xxx.name());
    assert_eq!("OPTIMIZE", TagKind::Optimize.name());
    assert_eq!("SAFETY", TagKind::Safety.name());
    assert_eq!("INVARIANT", TagKind::Invariant.name());
    assert_eq!("LINT", TagKind::Lint.name());
    assert_eq!("IGNORED", TagKind::Ignored.name());
}

#[test]
fn level_parse_and_names() {
    assert_eq!(Ok(TagLevel::Fix), TagLevel::parse("fix").map_err(|_| ()));
    assert_eq!(Ok(TagLevel::Improvement), TagLevel::parse("improvement").map_err(|_| ()));
    assert_eq!(Ok(TagLevel::Information), TagLevel::parse("information").map_err(|_| ()));
    assert_eq!(Ok(TagLevel::Custom), TagLevel::parse("custom").map_err(|_| ()));
    assert!(TagLevel::parse("Fix").is_err());
    assert!(TagLevel::parse("urgent").is_err());
    assert_eq!("Fix", TagLevel::Fix.name());
    assert_eq!("Improvement", TagLevel::Improvement.name());
    assert_eq!("Information", TagLevel::Information.name());
    assert_eq!("Custom", TagLevel::Custom.name());
}

#[test]
fn identify_by_extension() {
    assert_eq!(Some(SourceKind::Rust), SourceKind::identify("src/lib.rs"));
    assert_eq!(Some(SourceKind::CLike), SourceKind::identify("main.c"));
    assert_eq!(Some(SourceKind::CLike), SourceKind::identify("a/b/main.cpp"));
    assert_eq!(Some(SourceKind::CLike), SourceKind::identify("x.cc"));
    assert_eq!(Some(SourceKind::CLike), SourceKind::identify("x.h"));
    assert_eq!(Some(SourceKind::CLike), SourceKind::identify("x.hpp"));
    assert_eq!(Some(SourceKind::CLike), SourceKind::identify("App.java"));
    assert_eq!(Some(SourceKind::CLike), SourceKind::identify("App.cs"));
    assert_eq!(None, SourceKind::identify("README"));
    assert_eq!(None, SourceKind::identify("script.py"));
    assert_eq!(None, SourceKind::identify(".gitignore"));
    assert_eq!(None, SourceKind::identify("dir.rs/file"));
    assert_eq!(Some(SourceKind::Rust), SourceKind::identify("archive.tar.rs"));
}

#[test]
fn path_line_formatting() {
    let tag = Tag {
        path: "src/lib.rs".to_string(),
        line: 42,
        kind: TagKind::Todo,
        message: "x".to_string(),
        git_info: None,
    };
    assert_eq!("src/lib.rs:42", format_path_line(&tag));
    let zero = Tag { line: 0, ..tag.clone() };
    assert_eq!("src/lib.rs:0", format_path_line(&zero));
    let big = Tag { line: 100500, ..tag };
    assert_eq!("src/lib.rs:100500", format_path_line(&big));
}

#[test]
fn strip_leading_dot() {
    assert_eq!("a/b.rs", try_strip_leading_dot("./a/b.rs"));
    assert_eq!("a/b.rs", try_strip_leading_dot("a/b.rs"));
    assert_eq!("", try_strip_leading_dot("./"));
    assert_eq!(".", try_strip_leading_dot("."));
}

#[test]
fn search_options() {
    let no_git = SearchOptions::no_git();
    assert!(!no_git.git_ignore);
    assert!(!no_git.git_blame);
    let default = SearchOptions::default();
    assert!(default.git_ignore);
    assert!(default.git_blame);
}
