//! Search source files for comment tags.
//!
//! Comment tags are conventional markers such as `TODO`, `FIXME` or `HACK`
//! left in comments, or the Rust `todo!()` macro. The library classifies
//! each marker ([`TagKind`], [`TagLevel`]), extracts its message and line
//! number, and can attach the last-modifying commit's author and time
//! through a git repository handle.

use vstd::prelude::*;

pub mod source;
pub mod tag;
pub mod text;

pub use source::{SourceFile, SourceKind};
pub use tag::{Tag, TagKind, TagLevel};

verus! {

/// Options controlling a search: whether git-ignored files are skipped and
/// whether each tag is enriched with blame information.
#[derive(Debug, Clone, Copy, PartialEq, Eq, Structural)]
pub struct SearchOptions {
    /// When enabled, files that git reports as ignored are skipped.
    pub git_ignore: bool,
    /// When enabled, each tag is annotated with the last modification of
    /// its line, as git blame reports it.
    pub git_blame: bool,
}

impl SearchOptions {
    /// Options with every git feature disabled, which makes a search faster.
    pub fn no_git() -> (r: Self)
        ensures
            !r.git_ignore,
            !r.git_blame,
    {
        Self { git_ignore: false, git_blame: false }
    }
}

impl Default for SearchOptions {
    /// By default both git features are enabled.
    fn default() -> (r: Self)
        ensures
            r.git_ignore,
            r.git_blame,
    {
        Self { git_ignore: true, git_blame: true }
    }
}

/// A path without its leading `./`, when it has one: the form a history
/// store indexes paths in.
pub open spec fn strip_dot_spec(path: Seq<char>) -> Seq<char> {
    if path.len() >= 2 && path[0] == '.' && path[1] == '/' {
        path.subrange(2, path.len() as int)
    } else {
        path
    }
}

/// Strips a leading `./` from a path, or returns it unchanged.
pub fn try_strip_leading_dot(path: &str) -> (r: &str)
    ensures
        r@ == strip_dot_spec(path@),
{
    let n = path.unicode_len();
    if n >= 2 && path.get_char(0) == '.' && path.get_char(1) == '/' {
        path.substring_char(2, n)
    } else {
        path
    }
}

} // verus!
