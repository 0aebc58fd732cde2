use git2::{Commit, Repository, Signature};
use todl::tag::{Tag, TagKind};

/// Builds a repository holding one committed file `a.rs` whose first line
/// is a comment tag, without touching any worktree.
fn test_repo(path: &str) -> Repository {
    let repo = Repository::init(path).expect("init repository");
    {
        let sig = Signature::now("Tester", "tester@example.com").expect("signature");
        let blob = repo.blob(b"// TODO: tracked line\n").expect("blob");
        let mut builder = repo.treebuilder(None).expect("treebuilder");
        builder.insert("a.rs", blob, 0o100644).expect("insert");
        let tree_id = builder.write().expect("tree");
        let tree = repo.find_tree(tree_id).expect("find tree");
        let parent = repo.head().ok().and_then(|h| h.peel_to_commit().ok());
        let parents: Vec<&Commit> = parent.iter().collect();
        repo.commit(Some("HEAD"), &sig, &sig, "add file", &tree, &parents)
            .expect("commit");
    }
    repo
}

fn tag_at(path: &str, line: usize) -> Tag {
    Tag {
        path: path.to_string(),
        line,
        kind: TagKind::Todo,
        message: "tracked line".to_string(),
        git_info: None,
    }
}

#[test]
fn blame_enriches_tracked_line() {
    let repo = test_repo("/tmp/todl_blame_repo_enrich");
    let info = tag_at("./a.rs", 1).get_blame_info(&repo).expect("blame info");
    assert_eq!("Tester", info.author);
    assert!(info.time > 0);
}

#[test]
fn blame_failure_yields_none() {
    let repo = test_repo("/tmp/todl_blame_repo_fail");
    assert!(tag_at("a.rs", 99).get_blame_info(&repo).is_none());
    assert!(tag_at("missing.rs", 1).get_blame_info(&repo).is_none());
}
