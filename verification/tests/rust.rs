use todl::source::{SourceFile, SourceKind};
use todl::tag::TagKind;

#[test]
fn find_comments_rust() {
    const SOURCE: &str = "
        // TODO: Find the todo
        //! Optimize: Make it faster
        /*! Hack: This is hacky 😄 */
        /// fIX: Fix the bugs
        /* SAFETY: Wear a hard hat */
        /** Undone: Something has been taken away */
        /*** Bug: It is broken */
    ";

    let mut file = SourceFile::new(SourceKind::Rust, "testing", SOURCE);
    let tags = file.collect_tags();
    println!("{tags:#?}");
    assert_eq!(7, tags.len());

    assert_eq!(TagKind::Todo, tags[0].kind);
    assert_eq!(2, tags[0].line);
    assert_eq!("Find the todo", tags[0].message);

    assert_eq!(TagKind::Optimize, tags[1].kind);
    assert_eq!(3, tags[1].line);
    assert_eq!("Make it faster", tags[1].message);

    assert_eq!(TagKind::Hack, tags[2].kind);
    assert_eq!(4, tags[2].line);
    assert_eq!("This is hacky 😄", tags[2].message);

    assert_eq!(TagKind::Fix, tags[3].kind);
    assert_eq!(5, tags[3].line);
    assert_eq!("Fix the bugs", tags[3].message);

    assert_eq!(TagKind::Safety, tags[4].kind);
    assert_eq!(6, tags[4].line);
    assert_eq!("Wear a hard hat", tags[4].message);

    assert_eq!(TagKind::Undone, tags[5].kind);
    assert_eq!(7, tags[5].line);
    assert_eq!("Something has been taken away", tags[5].message);

    assert_eq!(TagKind::Bug, tags[6].kind);
    assert_eq!(8, tags[6].line);
    assert_eq!("It is broken", tags[6].message);
}

#[test]
fn find_todo_macro() {
    const SOURCE: &str = "
        todo!()
        todo!(\"I'll implement this later\")
    ";

    let mut file = SourceFile::new(SourceKind::Rust, "testing", SOURCE);
    let tags = file.collect_tags();
    println!("{tags:#?}");
    assert_eq!(2, tags.len());

    assert_eq!(TagKind::TodoMacro, tags[0].kind);
    assert_eq!(2, tags[0].line);
    assert_eq!("", tags[0].message);

    assert_eq!(TagKind::TodoMacro, tags[1].kind);
    assert_eq!(3, tags[1].line);
    assert_eq!("I'll implement this later", tags[1].message);
}

#[test]
fn macro_wins_over_comment_on_one_line() {
    let source = "todo!(\"from the macro\") // TODO: from the comment\n";
    let mut file = SourceFile::new(SourceKind::Rust, "testing", source);
    let tags = file.collect_tags();
    assert_eq!(1, tags.len());
    assert_eq!(TagKind::TodoMacro, tags[0].kind);
    assert_eq!("from the macro", tags[0].message);
    assert_eq!(1, tags[0].line);
}

#[test]
fn next_yields_tags_one_at_a_time() {
    let source = "// TODO: first\nfn code() {}\ntodo!(\"second\")\n";
    let mut file = SourceFile::new(SourceKind::Rust, "testing", source);

    let first = file.next().expect("first tag");
    assert_eq!(TagKind::Todo, first.kind);
    assert_eq!(1, first.line);
    assert_eq!("first", first.message);

    let second = file.next().expect("second tag");
    assert_eq!(TagKind::TodoMacro, second.kind);
    assert_eq!(3, second.line);
    assert_eq!("second", second.message);

    assert!(file.next().is_none());
    assert!(file.next().is_none());
}

#[test]
fn macro_with_non_literal_argument_is_no_match() {
    let source = "todo!(x)\ntodo!(\"unterminated\ntodo!(42, \"y\")\n";
    let mut file = SourceFile::new(SourceKind::Rust, "testing", source);
    let tags = file.collect_tags();
    assert!(tags.is_empty(), "unexpected tags: {tags:?}");
}
