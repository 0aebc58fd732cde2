//! The tag taxonomy: the closed set of recognized comment-tag keywords,
//! their severity levels, and the records produced by a scan.

use vstd::prelude::*;

use crate::text::{eq_lower, lower, str_eq};

verus! {

/// The kind of tag found. Keywords are matched case-insensitively.
#[derive(Debug, Clone, PartialEq, Eq)]
pub enum TagKind {
    /// `TODO`
    Todo,
    /// The Rust `todo!()` macro, or the keyword `TODO!`
    TodoMacro,
    /// `BUG` or `DEBUG`
    Bug,
    /// `FIXME` or `FIX`
    Fix,
    /// `NOTE` or `NB`
    Note,
    /// `UNDONE`
    Undone,
    /// `HACK` or `BODGE` or `KLUDGE`
    Hack,
    /// `XXX`
    Xxx,
    /// `OPTIMIZE` or `OPTIMIZEME` or `OPTIMISE` or `OPTIMISEME`
    Optimize,
    /// `SAFETY`
    Safety,
    /// `INVARIANT`
    Invariant,
    /// `LINT`
    Lint,
    /// `IGNORED`
    Ignored,
    /// Any other keyword that still looks like a comment tag, kept verbatim.
    /// `http` and `https` never appear here: the scanner discards them.
    Custom(String),
}

/// The mathematical image of a [`TagKind`]: the custom keyword is a
/// character sequence.
pub enum TagKindView {
    /// Image of [`TagKind::Todo`]
    Todo,
    /// Image of [`TagKind::TodoMacro`]
    TodoMacro,
    /// Image of [`TagKind::Bug`]
    Bug,
    /// Image of [`TagKind::Fix`]
    Fix,
    /// Image of [`TagKind::Note`]
    Note,
    /// Image of [`TagKind::Undone`]
    Undone,
    /// Image of [`TagKind::Hack`]
    Hack,
    /// Image of [`TagKind::Xxx`]
    Xxx,
    /// Image of [`TagKind::Optimize`]
    Optimize,
    /// Image of [`TagKind::Safety`]
    Safety,
    /// Image of [`TagKind::Invariant`]
    Invariant,
    /// Image of [`TagKind::Lint`]
    Lint,
    /// Image of [`TagKind::Ignored`]
    Ignored,
    /// Image of [`TagKind::Custom`]
    Custom(Seq<char>),
}

impl View for TagKind {
    type V = TagKindView;

    open spec fn view(&self) -> TagKindView {
        match self {
            TagKind::Todo => TagKindView::Todo,
            TagKind::TodoMacro => TagKindView::TodoMacro,
            TagKind::Bug => TagKindView::Bug,
            TagKind::Fix => TagKindView::Fix,
            TagKind::Note => TagKindView::Note,
            TagKind::Undone => TagKindView::Undone,
            TagKind::Hack => TagKindView::Hack,
            TagKind::Xxx => TagKindView::Xxx,
            TagKind::Optimize => TagKindView::Optimize,
            TagKind::Safety => TagKindView::Safety,
            TagKind::Invariant => TagKindView::Invariant,
            TagKind::Lint => TagKindView::Lint,
            TagKind::Ignored => TagKindView::Ignored,
            TagKind::Custom(s) => TagKindView::Custom(s@),
        }
    }
}

/// The canonical kind of a raw keyword: the fixed synonym table, consulted
/// after ASCII lower-casing, with `Custom` keeping an unknown keyword
/// verbatim.
pub open spec fn classify_spec(tok: Seq<char>) -> TagKindView {
    let l = lower(tok);
    if l == "todo"@ {
        TagKindView::Todo
    } else if l == "todo!"@ {
        TagKindView::TodoMacro
    } else if l == "bug"@ || l == "debug"@ {
        TagKindView::Bug
    } else if l == "fixme"@ || l == "fix"@ {
        TagKindView::Fix
    } else if l == "note"@ || l == "nb"@ {
        TagKindView::Note
    } else if l == "undone"@ {
        TagKindView::Undone
    } else if l == "hack"@ || l == "bodge"@ || l == "kludge"@ {
        TagKindView::Hack
    } else if l == "xxx"@ {
        TagKindView::Xxx
    } else if l == "optimize"@ || l == "optimise"@ || l == "optimizeme"@ || l == "optimiseme"@ {
        TagKindView::Optimize
    } else if l == "safety"@ {
        TagKindView::Safety
    } else if l == "invariant"@ {
        TagKindView::Invariant
    } else if l == "lint"@ {
        TagKindView::Lint
    } else if l == "ignored"@ {
        TagKindView::Ignored
    } else {
        TagKindView::Custom(tok)
    }
}

/// Could not parse a tag keyword: it matches none of the known kinds.
/// Normally handled by falling back to [`TagKind::Custom`].
#[derive(Debug)]
pub struct UnknownTagKind;

impl TagKind {
    /// Looks a keyword up in the synonym table; an unknown keyword is an
    /// error, with no `Custom` fallback.
    pub fn parse(tag: &str) -> (r: Result<Self, UnknownTagKind>)
        ensures
            match r {
                Ok(k) => k@ == classify_spec(tag@) && !(classify_spec(tag@) is Custom),
                Err(_) => classify_spec(tag@) is Custom,
            },
    {
        if eq_lower(tag, "todo") {
            Ok(TagKind::Todo)
        } else if eq_lower(tag, "todo!") {
            Ok(TagKind::TodoMacro)
        } else if eq_lower(tag, "bug") || eq_lower(tag, "debug") {
            Ok(TagKind::Bug)
        } else if eq_lower(tag, "fixme") || eq_lower(tag, "fix") {
            Ok(TagKind::Fix)
        } else if eq_lower(tag, "note") || eq_lower(tag, "nb") {
            Ok(TagKind::Note)
        } else if eq_lower(tag, "undone") {
            Ok(TagKind::Undone)
        } else if eq_lower(tag, "hack") || eq_lower(tag, "bodge") || eq_lower(tag, "kludge") {
            Ok(TagKind::Hack)
        } else if eq_lower(tag, "xxx") {
            Ok(TagKind::Xxx)
        } else if eq_lower(tag, "optimize") || eq_lower(tag, "optimise") || eq_lower(
            tag,
            "optimizeme",
        ) || eq_lower(tag, "optimiseme") {
            Ok(TagKind::Optimize)
        } else if eq_lower(tag, "safety") {
            Ok(TagKind::Safety)
        } else if eq_lower(tag, "invariant") {
            Ok(TagKind::Invariant)
        } else if eq_lower(tag, "lint") {
            Ok(TagKind::Lint)
        } else if eq_lower(tag, "ignored") {
            Ok(TagKind::Ignored)
        } else {
            Err(UnknownTagKind)
        }
    }

    /// Classifies a keyword, falling back to `Custom` with the keyword kept
    /// verbatim when it is not in the synonym table.
    pub fn new(tag: &str) -> (r: Self)
        ensures
            r@ == classify_spec(tag@),
    {
        match Self::parse(tag) {
            Ok(kind) => kind,
            Err(_) => TagKind::Custom(tag.to_owned()),
        }
    }

    /// The severity level of this kind.
    pub fn level(&self) -> (r: TagLevel)
        ensures
            r == level_spec(self@),
    {
        match self {
            TagKind::Todo => TagLevel::Improvement,
            TagKind::TodoMacro => TagLevel::Improvement,
            TagKind::Bug => TagLevel::Fix,
            TagKind::Fix => TagLevel::Fix,
            TagKind::Note => TagLevel::Information,
            TagKind::Undone => TagLevel::Information,
            TagKind::Hack => TagLevel::Information,
            TagKind::Xxx => TagLevel::Information,
            TagKind::Optimize => TagLevel::Improvement,
            TagKind::Safety => TagLevel::Information,
            TagKind::Invariant => TagLevel::Information,
            TagKind::Lint => TagLevel::Information,
            TagKind::Ignored => TagLevel::Information,
            TagKind::Custom(_) => TagLevel::Custom,
        }
    }

    /// The display form: the canonical upper-case name, or the custom
    /// keyword unchanged.
    pub fn name(&self) -> (r: String)
        ensures
            r@ == kind_name_spec(self@),
    {
        match self {
            TagKind::Todo => String::from_str("TODO"),
            TagKind::TodoMacro => String::from_str("TODO!"),
            TagKind::Bug => String::from_str("BUG"),
            TagKind::Fix => String::from_str("FIX"),
            TagKind::Note => String::from_str("NOTE"),
            TagKind::Undone => String::from_str("UNDONE"),
            TagKind::Hack => String::from_str("HACK"),
            TagKind::Xxx => String::from_str("XXX"),
            TagKind::Optimize => String::from_str("OPTIMIZE"),
            TagKind::Safety => String::from_str("SAFETY"),
            TagKind::Invariant => String::from_str("INVARIANT"),
            TagKind::Lint => String::from_str("LINT"),
            TagKind::Ignored => String::from_str("IGNORED"),
            TagKind::Custom(custom) => custom.clone(),
        }
    }
}

/// The severity level of each tag kind, per the fixed total mapping.
pub open spec fn level_spec(k: TagKindView) -> TagLevel {
    match k {
        TagKindView::Todo => TagLevel::Improvement,
        TagKindView::TodoMacro => TagLevel::Improvement,
        TagKindView::Bug => TagLevel::Fix,
        TagKindView::Fix => TagLevel::Fix,
        TagKindView::Note => TagLevel::Information,
        TagKindView::Undone => TagLevel::Information,
        TagKindView::Hack => TagLevel::Information,
        TagKindView::Xxx => TagLevel::Information,
        TagKindView::Optimize => TagLevel::Improvement,
        TagKindView::Safety => TagLevel::Information,
        TagKindView::Invariant => TagLevel::Information,
        TagKindView::Lint => TagLevel::Information,
        TagKindView::Ignored => TagLevel::Information,
        TagKindView::Custom(_) => TagLevel::Custom,
    }
}

/// The display form of a kind.
pub open spec fn kind_name_spec(k: TagKindView) -> Seq<char> {
    match k {
        TagKindView::Todo => "TODO"@,
        TagKindView::TodoMacro => "TODO!"@,
        TagKindView::Bug => "BUG"@,
        TagKindView::Fix => "FIX"@,
        TagKindView::Note => "NOTE"@,
        TagKindView::Undone => "UNDONE"@,
        TagKindView::Hack => "HACK"@,
        TagKindView::Xxx => "XXX"@,
        TagKindView::Optimize => "OPTIMIZE"@,
        TagKindView::Safety => "SAFETY"@,
        TagKindView::Invariant => "INVARIANT"@,
        TagKindView::Lint => "LINT"@,
        TagKindView::Ignored => "IGNORED"@,
        TagKindView::Custom(custom) => custom,
    }
}

/// Law: each recognized keyword synonym, compared without regard to ASCII
/// case, classifies to its canonical kind, whose level is the documented
/// one; and every keyword outside the synonym table classifies to `Custom`,
/// kept verbatim, whose level is `Custom`.
#[verifier::rlimit(50)]
pub proof fn lemma_synonym_levels(tok: Seq<char>)
    ensures
        lower(tok) == "todo"@ ==> classify_spec(tok) == TagKindView::Todo && level_spec(
            classify_spec(tok),
        ) == TagLevel::Improvement,
        lower(tok) == "todo!"@ ==> classify_spec(tok) == TagKindView::TodoMacro && level_spec(
            classify_spec(tok),
        ) == TagLevel::Improvement,
        lower(tok) == "bug"@ || lower(tok) == "debug"@ ==> classify_spec(tok) == TagKindView::Bug
            && level_spec(classify_spec(tok)) == TagLevel::Fix,
        lower(tok) == "fixme"@ || lower(tok) == "fix"@ ==> classify_spec(tok) == TagKindView::Fix
            && level_spec(classify_spec(tok)) == TagLevel::Fix,
        lower(tok) == "note"@ || lower(tok) == "nb"@ ==> classify_spec(tok) == TagKindView::Note
            && level_spec(classify_spec(tok)) == TagLevel::Information,
        lower(tok) == "undone"@ ==> classify_spec(tok) == TagKindView::Undone && level_spec(
            classify_spec(tok),
        ) == TagLevel::Information,
        lower(tok) == "hack"@ || lower(tok) == "bodge"@ || lower(tok) == "kludge"@ ==> classify_spec(
            tok,
        ) == TagKindView::Hack && level_spec(classify_spec(tok)) == TagLevel::Information,
        lower(tok) == "xxx"@ ==> classify_spec(tok) == TagKindView::Xxx && level_spec(
            classify_spec(tok),
        ) == TagLevel::Information,
        lower(tok) == "optimize"@ || lower(tok) == "optimise"@ || lower(tok) == "optimizeme"@
            || lower(tok) == "optimiseme"@ ==> classify_spec(tok) == TagKindView::Optimize
            && level_spec(classify_spec(tok)) == TagLevel::Improvement,
        lower(tok) == "safety"@ ==> classify_spec(tok) == TagKindView::Safety && level_spec(
            classify_spec(tok),
        ) == TagLevel::Information,
        lower(tok) == "invariant"@ ==> classify_spec(tok) == TagKindView::Invariant && level_spec(
            classify_spec(tok),
        ) == TagLevel::Information,
        lower(tok) == "lint"@ ==> classify_spec(tok) == TagKindView::Lint && level_spec(
            classify_spec(tok),
        ) == TagLevel::Information,
        lower(tok) == "ignored"@ ==> classify_spec(tok) == TagKindView::Ignored && level_spec(
            classify_spec(tok),
        ) == TagLevel::Information,
        !(classify_spec(tok) is Custom) ==> lower(tok) == "todo"@ || lower(tok) == "todo!"@
            || lower(tok) == "bug"@ || lower(tok) == "debug"@ || lower(tok) == "fixme"@ || lower(
            tok,
        ) == "fix"@ || lower(tok) == "note"@ || lower(tok) == "nb"@ || lower(tok) == "undone"@
            || lower(tok) == "hack"@ || lower(tok) == "bodge"@ || lower(tok) == "kludge"@ || lower(
            tok,
        ) == "xxx"@ || lower(tok) == "optimize"@ || lower(tok) == "optimise"@ || lower(tok)
            == "optimizeme"@ || lower(tok) == "optimiseme"@ || lower(tok) == "safety"@ || lower(
            tok,
        ) == "invariant"@ || lower(tok) == "lint"@ || lower(tok) == "ignored"@,
        classify_spec(tok) is Custom ==> classify_spec(tok) == TagKindView::Custom(tok)
            && level_spec(classify_spec(tok)) == TagLevel::Custom,
{
    reveal_strlit("todo");
    reveal_strlit("todo!");
    reveal_strlit("bug");
    reveal_strlit("debug");
    reveal_strlit("fixme");
    reveal_strlit("fix");
    reveal_strlit("note");
    reveal_strlit("nb");
    reveal_strlit("undone");
    reveal_strlit("hack");
    reveal_strlit("bodge");
    reveal_strlit("kludge");
    reveal_strlit("xxx");
    reveal_strlit("optimize");
    reveal_strlit("optimise");
    reveal_strlit("optimizeme");
    reveal_strlit("optimiseme");
    reveal_strlit("safety");
    reveal_strlit("invariant");
    reveal_strlit("lint");
    reveal_strlit("ignored");
    // The length and first character tell every pair of distinct table
    // entries apart.
    assert("todo"@.len() == 4 && "todo"@[0] == 't');
    assert("todo!"@.len() == 5 && "todo!"@[0] == 't');
    assert("bug"@.len() == 3 && "bug"@[0] == 'b');
    assert("debug"@.len() == 5 && "debug"@[0] == 'd');
    assert("fixme"@.len() == 5 && "fixme"@[0] == 'f');
    assert("fix"@.len() == 3 && "fix"@[0] == 'f');
    assert("note"@.len() == 4 && "note"@[0] == 'n');
    assert("nb"@.len() == 2 && "nb"@[0] == 'n');
    assert("undone"@.len() == 6 && "undone"@[0] == 'u');
    assert("hack"@.len() == 4 && "hack"@[0] == 'h');
    assert("bodge"@.len() == 5 && "bodge"@[0] == 'b');
    assert("kludge"@.len() == 6 && "kludge"@[0] == 'k');
    assert("xxx"@.len() == 3 && "xxx"@[0] == 'x');
    assert("optimize"@.len() == 8 && "optimize"@[0] == 'o');
    assert("optimise"@.len() == 8 && "optimise"@[0] == 'o');
    assert("optimizeme"@.len() == 10 && "optimizeme"@[0] == 'o');
    assert("optimiseme"@.len() == 10 && "optimiseme"@[0] == 'o');
    assert("safety"@.len() == 6 && "safety"@[0] == 's');
    assert("invariant"@.len() == 9 && "invariant"@[0] == 'i');
    assert("lint"@.len() == 4 && "lint"@[0] == 'l');
    assert("ignored"@.len() == 7 && "ignored"@[0] == 'i');
}

/// The level of severity or urgency behind a tag, for quick filtering.
#[derive(Debug, Clone, Copy, PartialEq, Eq, Structural)]
pub enum TagLevel {
    /// Something is broken and needs fixing.
    Fix,
    /// Something should be improved.
    Improvement,
    /// Extra information about the code.
    Information,
    /// A custom tag outside the known table.
    Custom,
}

/// Parsing a tag level from a string failed: the text named no level.
#[derive(Debug)]
pub struct UnknownTagLevel;

/// Which level a lower-case level name denotes, if any.
pub open spec fn level_parse_spec(s: Seq<char>) -> Option<TagLevel> {
    if s == "fix"@ {
        Some(TagLevel::Fix)
    } else if s == "improvement"@ {
        Some(TagLevel::Improvement)
    } else if s == "information"@ {
        Some(TagLevel::Information)
    } else if s == "custom"@ {
        Some(TagLevel::Custom)
    } else {
        None
    }
}

/// The display form of a level.
pub open spec fn level_name_spec(l: TagLevel) -> Seq<char> {
    match l {
        TagLevel::Fix => "Fix"@,
        TagLevel::Improvement => "Improvement"@,
        TagLevel::Information => "Information"@,
        TagLevel::Custom => "Custom"@,
    }
}

impl TagLevel {
    /// Parses a level from its lower-case name; any other text is an error.
    pub fn parse(s: &str) -> (r: Result<Self, UnknownTagLevel>)
        ensures
            match r {
                Ok(l) => level_parse_spec(s@) == Some(l),
                Err(_) => level_parse_spec(s@) is None,
            },
    {
        if str_eq(s, "fix") {
            Ok(TagLevel::Fix)
        } else if str_eq(s, "improvement") {
            Ok(TagLevel::Improvement)
        } else if str_eq(s, "information") {
            Ok(TagLevel::Information)
        } else if str_eq(s, "custom") {
            Ok(TagLevel::Custom)
        } else {
            Err(UnknownTagLevel)
        }
    }

    /// The display form: `Fix`, `Improvement`, `Information` or `Custom`.
    pub fn name(&self) -> (r: String)
        ensures
            r@ == level_name_spec(*self),
    {
        match self {
            TagLevel::Fix => String::from_str("Fix"),
            TagLevel::Improvement => String::from_str("Improvement"),
            TagLevel::Information => String::from_str("Information"),
            TagLevel::Custom => String::from_str("Custom"),
        }
    }
}

impl core::str::FromStr for TagKind {
    type Err = UnknownTagKind;

    fn from_str(tag: &str) -> Result<Self, Self::Err> {
        Self::parse(tag)
    }
}

impl core::str::FromStr for TagLevel {
    type Err = UnknownTagLevel;

    fn from_str(s: &str) -> Result<Self, Self::Err> {
        Self::parse(s)
    }
}

/// Git provenance of a tag: the last modification of its line.
#[derive(Debug, Clone, PartialEq, Eq)]
pub struct GitInfo {
    /// When the line was last modified, in seconds since the Unix epoch,
    /// as the commit records it.
    pub time: i64,
    /// The author of the last modification.
    pub author: String,
}

/// The mathematical image of a [`GitInfo`].
pub struct GitInfoView {
    /// Image of the modification time.
    pub time: int,
    /// Image of the author name.
    pub author: Seq<char>,
}

impl View for GitInfo {
    type V = GitInfoView;

    open spec fn view(&self) -> GitInfoView {
        GitInfoView { time: self.time as int, author: self.author@ }
    }
}

/// One comment tag found in a source file.
#[derive(Debug, Clone, PartialEq, Eq)]
pub struct Tag {
    /// The relative path of the source file, as the traversal supplied it.
    pub path: String,
    /// The 1-based line number of the tag in the source file.
    pub line: usize,
    /// The kind of tag.
    pub kind: TagKind,
    /// The message of the tag; it only ever holds text from the tag's own
    /// line.
    pub message: String,
    /// Provenance of the line, when git blame was asked for and succeeded.
    /// Its absence is an expected outcome, not an error.
    pub git_info: Option<GitInfo>,
}

/// The mathematical image of a [`Tag`].
pub struct TagView {
    /// Image of the path.
    pub path: Seq<char>,
    /// Image of the line number.
    pub line: int,
    /// Image of the kind.
    pub kind: TagKindView,
    /// Image of the message.
    pub message: Seq<char>,
    /// Image of the provenance.
    pub git_info: Option<GitInfoView>,
}

impl View for Tag {
    type V = TagView;

    open spec fn view(&self) -> TagView {
        TagView {
            path: self.path@,
            line: self.line as int,
            kind: self.kind@,
            message: self.message@,
            git_info: match self.git_info {
                Some(g) => Some(g@),
                None => None,
            },
        }
    }
}

#[verifier::external_type_specification]
#[verifier::external_body]
/// An open git repository, as git2 represents it.
pub struct ExRepository(git2::Repository);

#[verifier::external_type_specification]
#[verifier::external_body]
/// The blame of one file, as git2 represents it.
pub struct ExBlame<'repo>(git2::Blame<'repo>);

#[verifier::external_type_specification]
#[verifier::external_body]
/// One hunk of a blame, as git2 represents it.
pub struct ExBlameHunk<'blame>(git2::BlameHunk<'blame>);

#[verifier::external_type_specification]
#[verifier::external_body]
/// A git object id, as git2 represents it.
pub struct ExOid(git2::Oid);

#[verifier::external_type_specification]
#[verifier::external_body]
/// One commit, as git2 represents it.
pub struct ExCommit<'repo>(git2::Commit<'repo>);

#[verifier::external_type_specification]
#[verifier::external_body]
/// An author or committer signature, as git2 represents it.
pub struct ExSignature<'a>(git2::Signature<'a>);

/// Relies on git2::Repository::blame_file: the blame of one tracked file,
/// or an error — mapped to `None` — when the store cannot provide it.
#[verifier::external_body]
fn repo_blame_file<'r>(repo: &'r git2::Repository, path: &str) -> Option<git2::Blame<'r>> {
    repo.blame_file(std::path::Path::new(path), None).ok()
}

/// Relies on git2::Blame::get_line: the hunk covering a 1-based line
/// number, or `None` when the line is out of range.
#[verifier::external_body]
fn blame_get_line<'b, 'r>(blame: &'b git2::Blame<'r>, line: usize) -> Option<git2::BlameHunk<'b>> {
    blame.get_line(line)
}

/// Relies on git2::BlameHunk::final_commit_id: the commit in which the
/// hunk's lines were last changed.
#[verifier::external_body]
fn hunk_final_commit_id<'b>(hunk: &git2::BlameHunk<'b>) -> git2::Oid {
    hunk.final_commit_id()
}

/// Relies on git2::Repository::find_commit: looks a commit up by its id;
/// an error — a missing or non-commit id — is mapped to `None`.
#[verifier::external_body]
fn repo_find_commit<'r>(repo: &'r git2::Repository, oid: git2::Oid) -> Option<git2::Commit<'r>> {
    repo.find_commit(oid).ok()
}

/// Relies on git2::Commit::time: the commit time, whose seconds count
/// from the Unix epoch.
#[verifier::external_body]
fn commit_time_seconds<'r>(commit: &git2::Commit<'r>) -> i64 {
    commit.time().seconds()
}

/// Relies on git2::Commit::author: the commit's author signature.
#[verifier::external_body]
fn commit_author<'c, 'r>(commit: &'c git2::Commit<'r>) -> git2::Signature<'c> {
    commit.author()
}

/// Relies on git2::Signature::name: the name on the signature, or `None`
/// when it is absent or not valid UTF-8.
#[verifier::external_body]
fn signature_name<'a>(sig: &git2::Signature<'a>) -> Option<String> {
    match sig.name().ok() {
        Some(n) => Some(n.to_owned()),
        None => None,
    }
}

impl Tag {
    /// Resolves the last commit that touched this tag's line: the tag's
    /// path — normalized by stripping a leading `./`, the form the
    /// history store indexes — is blamed, the hunk covering the line is
    /// taken, and its final commit's author and time are read. Failure at
    /// any step — file not tracked, line not found, commit or author
    /// missing — yields `None` rather than an error: enrichment is
    /// best-effort and never interrupts a scan.
    pub fn get_blame_info(&self, repo: &git2::Repository) -> (r: Option<GitInfo>) {
        let path = crate::try_strip_leading_dot(self.path.as_str());
        let blame = match repo_blame_file(repo, path) {
            Some(b) => b,
            None => {
                return None;
            },
        };
        let hunk = match blame_get_line(&blame, self.line) {
            Some(h) => h,
            None => {
                return None;
            },
        };
        let oid = hunk_final_commit_id(&hunk);
        let commit = match repo_find_commit(repo, oid) {
            Some(c) => c,
            None => {
                return None;
            },
        };
        let sig = commit_author(&commit);
        let author = match signature_name(&sig) {
            Some(a) => a,
            None => {
                return None;
            },
        };
        let time = commit_time_seconds(&commit);
        Some(GitInfo { time, author })
    }
}

/// The character of one decimal digit.
pub open spec fn digit_char(d: nat) -> char {
    if d == 0 {
        '0'
    } else if d == 1 {
        '1'
    } else if d == 2 {
        '2'
    } else if d == 3 {
        '3'
    } else if d == 4 {
        '4'
    } else if d == 5 {
        '5'
    } else if d == 6 {
        '6'
    } else if d == 7 {
        '7'
    } else if d == 8 {
        '8'
    } else {
        '9'
    }
}

/// The decimal digits of a number, most significant first, with no
/// leading zero except for the number zero itself.
pub open spec fn dec_digits(n: nat) -> Seq<char>
    decreases n,
{
    if n < 10 {
        seq![digit_char(n)]
    } else {
        dec_digits(n / 10).push(digit_char(n % 10))
    }
}

fn digit_str(d: usize) -> (r: String)
    requires
        d < 10,
    ensures
        r@ == seq![digit_char(d as nat)],
{
    let r = if d == 0 {
        String::from_str("0")
    } else if d == 1 {
        String::from_str("1")
    } else if d == 2 {
        String::from_str("2")
    } else if d == 3 {
        String::from_str("3")
    } else if d == 4 {
        String::from_str("4")
    } else if d == 5 {
        String::from_str("5")
    } else if d == 6 {
        String::from_str("6")
    } else if d == 7 {
        String::from_str("7")
    } else if d == 8 {
        String::from_str("8")
    } else {
        String::from_str("9")
    };
    proof {
        reveal_strlit("0");
        reveal_strlit("1");
        reveal_strlit("2");
        reveal_strlit("3");
        reveal_strlit("4");
        reveal_strlit("5");
        reveal_strlit("6");
        reveal_strlit("7");
        reveal_strlit("8");
        reveal_strlit("9");
        assert(r@.len() == 1);
        assert(r@ =~= seq![digit_char(d as nat)]);
    }
    r
}

/// Renders a number in decimal, proved to give exactly its digits.
pub fn dec_string(n: usize) -> (r: String)
    ensures
        r@ == dec_digits(n as nat),
    decreases n,
{
    if n < 10 {
        digit_str(n)
    } else {
        let mut s = dec_string(n / 10);
        let d = digit_str(n % 10);
        s.append(d.as_str());
        proof {
            assert(s@ =~= dec_digits(n as nat / 10).push(digit_char(n as nat % 10)));
        }
        s
    }
}

/// The `path:line` form of a tag's location, used when a tag is shown.
pub fn format_path_line(tag: &Tag) -> (r: String)
    ensures
        r@ == tag.path@ + seq![':'] + dec_digits(tag.line as nat),
{
    let mut s = tag.path.clone();
    let colon = String::from_str(":");
    proof {
        reveal_strlit(":");
        assert(colon@ =~= seq![':']);
    }
    s.append(colon.as_str());
    let d = dec_string(tag.line);
    s.append(d.as_str());
    s
}

} // verus!
