//! Path facts obtained from `std::path`, named over the path text.
use vstd::prelude::*;

verus! {

/// Number of components that `Path::components` yields for the path text `s`.
pub uninterp spec fn path_component_count(s: Seq<char>) -> nat;

/// Final component of the path text `s`, as `Path::file_name` gives it.
pub uninterp spec fn path_file_name(s: Seq<char>) -> Option<Seq<char>>;

/// The path text `s` without its final component, as `Path::parent` gives it.
pub uninterp spec fn path_parent(s: Seq<char>) -> Option<Seq<char>>;

/// The path text `rel` adjoined to `base`, as `Path::join` gives it.
pub uninterp spec fn path_join(base: Seq<char>, rel: Seq<char>) -> Seq<char>;

/// Relies on `Path::components`: the count depends on the path text alone.
#[verifier::external_body]
pub(crate) fn component_count(s: &str) -> (r: usize)
    ensures
        r as nat == path_component_count(s@),
{
    std::path::Path::new(s).components().count()
}

/// Relies on `Path::file_name`: the final component, if the path has a normal one.
#[verifier::external_body]
pub(crate) fn file_name_of(s: &str) -> (r: Option<String>)
    ensures
        r is Some <==> path_file_name(s@) is Some,
        r is Some ==> r->0@ == path_file_name(s@)->0,
{
    std::path::Path::new(s).file_name().map(|n| n.to_string_lossy().to_string())
}

/// Relies on `Path::parent`: the path without its final component, if it has one.
#[verifier::external_body]
pub(crate) fn parent_of(s: &str) -> (r: Option<String>)
    ensures
        r is Some <==> path_parent(s@) is Some,
        r is Some ==> r->0@ == path_parent(s@)->0,
{
    std::path::Path::new(s).parent().map(|p| p.to_string_lossy().to_string())
}

/// Relies on `Path::join`: `rel` adjoined to `base`.
#[verifier::external_body]
pub(crate) fn join_path(base: &str, rel: &str) -> (r: String)
    ensures
        r@ == path_join(base@, rel@),
{
    std::path::Path::new(base).join(rel).to_string_lossy().to_string()
}

} // verus!
