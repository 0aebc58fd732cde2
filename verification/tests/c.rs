use todl::source::{SourceFile, SourceKind};
use todl::tag::TagKind;

#[test]
fn find_comments_c() {
    const SOURCE: &str = "
        // TODO: Find the todo
        // Optimize: Make it faster
        /* Hack: This is hacky */
        // fIX: Fix the bugs
        /* SAFETY: Wear a hard hat */
        /* Undone: Something has been taken away */
        /* Bug: It is broken */
    ";

    let mut file = SourceFile::new(SourceKind::CLike, "testing", SOURCE);
    let tags = file.collect_tags();
    println!("{tags:#?}");
    assert_eq!(7, tags.len());

    assert_eq!(TagKind::Todo, tags[0].kind);
    assert_eq!(2, tags[0].line);
    assert_eq!("Find the todo", tags[0].message);

    assert_eq!(TagKind::Optimize, tags[1].kind);
    assert_eq!(3, tags[1].line);
    assert_eq!("Make it faster", tags[1].message);

    assert_eq!(TagKind::Hack, tags[2].kind);
    assert_eq!(4, tags[2].line);
    assert_eq!("This is hacky", tags[2].message);

    assert_eq!(TagKind::Fix, tags[3].kind);
    assert_eq!(5, tags[3].line);
    assert_eq!("Fix the bugs", tags[3].message);

    assert_eq!(TagKind::Safety, tags[4].kind);
    assert_eq!(6, tags[4].line);
    assert_eq!("Wear a hard hat", tags[4].message);

    assert_eq!(TagKind::Undone, tags[5].kind);
    assert_eq!(7, tags[5].line);
    assert_eq!("Something has been taken away", tags[5].message);

    assert_eq!(TagKind::Bug, tags[6].kind);
    assert_eq!(8, tags[6].line);
    assert_eq!("It is broken", tags[6].message);
}

#[test]
fn dont_find_urls() {
    const SOURCE: &str = "
        http://example.com
        https://www.example.com
        file://relative-path
        file:///absolute-path
    ";
    let mut file = SourceFile::new(SourceKind::CLike, "testing", SOURCE);
    let tags = file.collect_tags();
    assert!(tags.is_empty(), "unexpected tags: {tags:?}");
}

#[test]
fn http_keyword_any_case_is_discarded() {
    // Here the comment-tag pattern itself captures the keyword: these
    // lines do match, and are then discarded as URL false positives.
    let mut file = SourceFile::new(
        SourceKind::CLike,
        "testing",
        "// http://example.com/page\n// HTTPS://EXAMPLE.COM\n// Http: see the link\n",
    );
    let tags = file.collect_tags();
    assert!(tags.is_empty(), "unexpected tags: {tags:?}");

    // A keyword that merely starts with http is a real (custom) tag.
    let mut file = SourceFile::new(SourceKind::CLike, "testing", "// httpx: a tag\n");
    let tags = file.collect_tags();
    assert_eq!(1, tags.len());
    assert_eq!(TagKind::Custom("httpx".to_string()), tags[0].kind);
}

#[test]
fn clike_scan_end_to_end() {
    let source = "// TODO: Find the todo\n// Optimize: Make it faster\n/* Hack: This is hacky */\n";
    let mut file = SourceFile::new(SourceKind::CLike, "block", source);
    let tags = file.collect_tags();
    assert_eq!(3, tags.len());
    assert_eq!(TagKind::Todo, tags[0].kind);
    assert_eq!(1, tags[0].line);
    assert_eq!("Find the todo", tags[0].message);
    assert_eq!(TagKind::Optimize, tags[1].kind);
    assert_eq!(2, tags[1].line);
    assert_eq!("Make it faster", tags[1].message);
    assert_eq!(TagKind::Hack, tags[2].kind);
    assert_eq!(3, tags[2].line);
    assert_eq!("This is hacky", tags[2].message);
    for tag in &tags {
        assert!(tag.git_info.is_none());
        assert_eq!("block", tag.path);
    }
}

#[test]
fn clike_never_matches_todo_macro() {
    let source = "
        todo!()
        todo!(\"I'll implement this later\")
    ";
    let mut file = SourceFile::new(SourceKind::CLike, "testing", source);
    let tags = file.collect_tags();
    assert!(tags.is_empty(), "unexpected tags: {tags:?}");
}

#[test]
fn one_trailing_closer_is_stripped() {
    let mut file = SourceFile::new(SourceKind::CLike, "testing", "/* Note: a */ */\n");
    let tags = file.collect_tags();
    assert_eq!(1, tags.len());
    assert_eq!(TagKind::Note, tags[0].kind);
    assert_eq!("a */", tags[0].message);
}

#[test]
fn scanning_twice_gives_identical_tags() {
    let source = "// TODO: once\ncode();\n/* Bug: twice */\n";
    let mut first = SourceFile::new(SourceKind::CLike, "testing", source);
    let mut second = SourceFile::new(SourceKind::CLike, "testing", source);
    let tags_a = first.collect_tags();
    let tags_b = second.collect_tags();
    assert_eq!(tags_a, tags_b);
    assert_eq!(2, tags_a.len());
}
