//! The arguments with which the version-control tool is asked to list a
//! remote's references, to clone a repository, and to reset a clone.

use vstd::prelude::*;
use crate::text::texts;

verus! {

/// The arguments that make the tool list the references of `uri`.
pub open spec fn listing_args_of(uri: Seq<char>) -> Seq<Seq<char>> {
    seq!["ls-remote"@, uri]
}

/// The arguments that make the tool clone `uri` into `path`.
pub open spec fn clone_args_of(uri: Seq<char>, path: Seq<char>) -> Seq<Seq<char>> {
    seq!["clone"@, uri, path]
}

/// The arguments that make the tool, run inside a clone, reset it to
/// `revision` and discard whatever differs.
pub open spec fn reset_args_of(revision: Seq<char>) -> Seq<Seq<char>> {
    seq!["reset"@, "--hard"@, revision]
}

/// The arguments that make the tool list the references of `uri`.
pub fn listing_args(uri: &str) -> (args: Vec<String>)
    ensures
        texts(args@) == listing_args_of(uri@),
{
    let args = vec!["ls-remote".to_owned(), uri.to_owned()];
    assert(texts(args@) =~= listing_args_of(uri@));
    args
}

/// The arguments that make the tool clone `uri` into `path`.
pub fn clone_args(uri: &str, path: &str) -> (args: Vec<String>)
    ensures
        texts(args@) == clone_args_of(uri@, path@),
{
    let args = vec!["clone".to_owned(), uri.to_owned(), path.to_owned()];
    assert(texts(args@) =~= clone_args_of(uri@, path@));
    args
}

/// The arguments that make the tool reset the clone it runs in to
/// `revision`.
pub fn reset_args(revision: &str) -> (args: Vec<String>)
    ensures
        texts(args@) == reset_args_of(revision@),
{
    let args = vec!["reset".to_owned(), "--hard".to_owned(), revision.to_owned()];
    assert(texts(args@) =~= reset_args_of(revision@));
    args
}

} // verus!
