//! Paths as text: joining a relative path onto a base, and taking a parent.

use vstd::prelude::*;
use vstd::string::StrSliceExecFns;
use vstd::string::StringExecFns;

verus! {

/// A path is absolute when it begins at the root.
pub open spec fn is_absolute(path: Seq<char>) -> bool {
    path.len() > 0 && path[0] == '/'
}

/// The path that results from pushing `rel` onto `base`: an absolute `rel`
/// replaces `base`; otherwise `rel` is appended, after a separator where
/// `base` is not empty and does not already end in one.
pub open spec fn joined(base: Seq<char>, rel: Seq<char>) -> Seq<char> {
    if is_absolute(rel) {
        rel
    } else if base.len() > 0 && base.last() != '/' {
        base + seq!['/'] + rel
    } else {
        base + rel
    }
}

/// Pushes `rel` onto `base`.
pub fn join(base: &str, rel: &str) -> (r: String)
    ensures
        r@ == joined(base@, rel@),
{
    let rel_len: usize = rel.unicode_len();
    if rel_len > 0 && rel.get_char(0) == '/' {
        return String::from_str(rel);
    }
    let base_len: usize = base.unicode_len();
    let mut out = String::from_str(base);
    if base_len > 0 && base.get_char(base_len - 1) != '/' {
        proof {
            reveal_strlit("/");
            assert("/"@ =~= seq!['/']);
        }
        out.append("/");
    }
    out.append(rel);
    out
}

/// The text of an optional string.
pub open spec fn text_of(s: Option<String>) -> Option<Seq<char>> {
    match s {
        Some(t) => Some(t@),
        None => None,
    }
}

/// The parent of a path, as `std::path::Path::parent` gives it: the path
/// without its final component, and nothing for a path that ends in a root
/// or is empty.
pub uninterp spec fn parent_path(path: Seq<char>) -> Option<Seq<char>>;

/// The parent of a path, where it is what a parent always is: a shorter
/// beginning of the path.
pub open spec fn proper_parent(path: Seq<char>) -> Option<Seq<char>> {
    match parent_path(path) {
        Some(p) => if p.len() < path.len() && p.is_prefix_of(path) {
            Some(p)
        } else {
            None
        },
        None => None,
    }
}

/// Calls `std::path::Path::parent` on `path`. The contract names the
/// result, the same text always having the same parent, and claims of it
/// what "the path without its final component" means: a parent is a
/// beginning of the path and shorter than it. A parent of a path that is
/// valid UTF-8 is cut at a separator and so valid UTF-8 too.
#[verifier::external_body]
pub(crate) fn parent(path: &str) -> (r: Option<String>)
    ensures
        text_of(r) == parent_path(path@),
        r matches Some(p) ==> p@.len() < path@.len() && p@.is_prefix_of(path@),
{
    match std::path::Path::new(path).parent() {
        Some(p) => Some(p.to_string_lossy().into_owned()),
        None => None,
    }
}

/// The directories above a path: its parent, the parent's parent, and so on.
pub open spec fn ancestors(path: Seq<char>) -> Set<Seq<char>>
    decreases path.len(),
{
    match proper_parent(path) {
        Some(p) => ancestors(p).insert(p),
        None => Set::empty(),
    }
}

/// Every directory above a path has a shorter name than the path.
pub proof fn lemma_ancestors_are_shorter(path: Seq<char>, dir: Seq<char>)
    requires
        ancestors(path).contains(dir),
    ensures
        dir.len() < path.len(),
    decreases path.len(),
{
    match proper_parent(path) {
        Some(p) => {
            if dir != p {
                lemma_ancestors_are_shorter(p, dir);
            }
        },
        None => {},
    }
}

} // verus!
