//! The pieces of a path that the player reads: its extension, its parent
//! directory and its file stem, and whether two paths are the same. Paths
//! are held as UTF-8 strings; the standard library's `Path` does the
//! parsing, with the separators of the platform the crate is built for, so
//! the names below stand for what `Path` computes on that platform.

use vstd::prelude::*;

verus! {

/// The view of an optional string, as an optional character sequence.
pub open spec fn opt_chars(s: Option<String>) -> Option<Seq<char>> {
    match s {
        Some(t) => Some(t@),
        None => None,
    }
}

/// Name for the result of `Path::extension` on a path given as a string:
/// the part of the file name after its last `.`, if the file name has one
/// that is not its first character.
pub uninterp spec fn path_extension(path: Seq<char>) -> Option<Seq<char>>;

/// Name for the result of `Path::parent` on a path given as a string: the
/// path without its final component, or nothing for a root or empty path.
pub uninterp spec fn path_parent(path: Seq<char>) -> Option<Seq<char>>;

/// Name for the result of `Path::file_stem` on a path given as a string: the
/// file name without its extension.
pub uninterp spec fn path_stem(path: Seq<char>) -> Option<Seq<char>>;

/// Name for what `Path`'s `==` says of two paths spelled differently: it
/// compares them component by component, so `/a//b`, `/a/./b` and `/a/b`
/// are the same path.
pub uninterp spec fn paths_equal(a: Seq<char>, b: Seq<char>) -> bool;

/// Two strings denote the same path: they are spelled alike, or `Path`'s
/// `==` finds their components equal.
pub open spec fn path_same(a: Seq<char>, b: Seq<char>) -> bool {
    a == b || paths_equal(a, b)
}

/// Calls `Path`'s `==` on two paths given as strings. A path is equal to
/// itself (`Path` is `Eq`); for different spellings the contract only
/// names the component-wise comparison.
#[verifier::external_body]
pub(crate) fn same_path(a: &str, b: &str) -> (r: bool)
    ensures
        r == (a@ == b@ || paths_equal(a@, b@)),
{
    std::path::Path::new(a) == std::path::Path::new(b)
}

/// Calls `Path::extension` and reads the result back as a string. The
/// contract only names the result; it claims no more of `Path`'s parsing.
#[verifier::external_body]
pub(crate) fn extension_of(path: &str) -> (r: Option<String>)
    ensures
        opt_chars(r) == path_extension(path@),
{
    std::path::Path::new(path).extension().and_then(|e| e.to_str()).map(|e| e.to_string())
}

/// Calls `Path::parent` and reads the result back as a string. The contract
/// only names the result; it claims no more of `Path`'s parsing.
#[verifier::external_body]
pub(crate) fn parent_of(path: &str) -> (r: Option<String>)
    ensures
        opt_chars(r) == path_parent(path@),
{
    std::path::Path::new(path).parent().and_then(|p| p.to_str()).map(|p| p.to_string())
}

/// Calls `Path::file_stem` and reads the result back as a string. The
/// contract only names the result; it claims no more of `Path`'s parsing.
#[verifier::external_body]
pub(crate) fn stem_of(path: &str) -> (r: Option<String>)
    ensures
        opt_chars(r) == path_stem(path@),
{
    std::path::Path::new(path).file_stem().and_then(|s| s.to_str()).map(|s| s.to_string())
}

} // verus!
