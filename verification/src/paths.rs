//! Filesystem paths as text: the parent and ancestors of a path, and joining
//! a component onto a path, all computed by `std::path` with the path rules
//! of the target the crate is built for.
use vstd::prelude::*;

verus! {

/// The parent that `std::path::Path::parent` computes for a path, if any.
pub uninterp spec fn path_parent_of(path: Seq<char>) -> Option<Seq<char>>;

/// The path that `std::path::Path::join` builds from a base and a component.
pub uninterp spec fn path_join_of(base: Seq<char>, tail: Seq<char>) -> Seq<char>;

/// The ancestor `depth` levels up: the path itself at depth zero, then the
/// parent of the ancestor one level below, as long as there is one.
pub open spec fn ancestor_of(path: Seq<char>, depth: nat) -> Option<Seq<char>>
    decreases depth,
{
    if depth == 0 {
        Some(path)
    } else {
        match ancestor_of(path, (depth - 1) as nat) {
            Some(q) => path_parent_of(q),
            None => None,
        }
    }
}

/// Two levels up is the parent of the parent.
pub proof fn lemma_grandparent(path: Seq<char>)
    ensures
        ancestor_of(path, 2) == (match path_parent_of(path) {
            Some(q) => path_parent_of(q),
            None => None,
        }),
{
    reveal_with_fuel(ancestor_of, 3);
}

/// The parent of `path`.
///
/// Wraps `Path::parent`, documented to return the path without its final
/// component, and nothing for the empty path. Its result is named by
/// `path_parent_of`; besides, the contract states those two documented
/// facts: the empty path has no parent, and a parent is what is left of the
/// path's text once the final component is cut off, so a strictly shorter
/// prefix of it. Where exactly the cut falls (separators, roots, prefixes) is
/// left to the name.
#[verifier::external_body]
pub(crate) fn path_parent(path: &str) -> (r: Option<String>)
    ensures
        r.deep_view() == path_parent_of(path@),
        path@.len() == 0 ==> r is None,
        r matches Some(p) ==> p@.len() < path@.len() && path@.take(p@.len() as int) == p@,
{
    std::path::Path::new(path).parent().map(|p| p.to_string_lossy().into_owned())
}

/// `tail` joined onto `base`.
///
/// Wraps `Path::join`. Its result is named by `path_join_of`; where the
/// separator goes, and what an absolute `tail` does, is left to the name.
#[verifier::external_body]
pub(crate) fn path_join(base: &str, tail: &str) -> (r: String)
    ensures
        r@ == path_join_of(base@, tail@),
{
    std::path::Path::new(base).join(tail).to_string_lossy().into_owned()
}

} // verus!
