//! Paths as text. What the standard library computes on paths is taken from
//! it: each operation here stands for one of its functions.

use vstd::prelude::*;

verus! {

/// What `Path::join` gives for `base` and `part`.
pub uninterp spec fn path_join(base: Seq<char>, part: Seq<char>) -> Seq<char>;

/// What `Path::file_name` gives for `path`.
pub uninterp spec fn path_file_name(path: Seq<char>) -> Option<Seq<char>>;

/// What `Path::extension` gives for `path`.
pub uninterp spec fn path_extension(path: Seq<char>) -> Option<Seq<char>>;

/// What `Path::file_stem` gives for `path`.
pub uninterp spec fn path_file_stem(path: Seq<char>) -> Option<Seq<char>>;

/// Calls `std::path::Path::join`. Believed: the result depends on the two
/// texts alone.
#[verifier::external_body]
pub(crate) fn join(base: &str, part: &str) -> (out: String)
    ensures
        out@ == path_join(base@, part@),
{
    std::path::Path::new(base).join(part).to_string_lossy().into_owned()
}

/// Calls `std::path::Path::file_name`. Believed: the result depends on the
/// text alone.
#[verifier::external_body]
pub(crate) fn file_name(path: &str) -> (out: Option<String>)
    ensures
        out is Some <==> path_file_name(path@) is Some,
        out is Some ==> out->0@ == path_file_name(path@)->0,
{
    std::path::Path::new(path).file_name().map(|name| name.to_string_lossy().into_owned())
}

/// Calls `std::path::Path::extension`. Believed: the result depends on the
/// text alone.
#[verifier::external_body]
pub(crate) fn extension(path: &str) -> (out: Option<String>)
    ensures
        out is Some <==> path_extension(path@) is Some,
        out is Some ==> out->0@ == path_extension(path@)->0,
{
    std::path::Path::new(path).extension().map(|ext| ext.to_string_lossy().into_owned())
}

/// Calls `std::path::Path::file_stem`. Believed: the result depends on the
/// text alone.
#[verifier::external_body]
pub(crate) fn file_stem(path: &str) -> (out: Option<String>)
    ensures
        out is Some <==> path_file_stem(path@) is Some,
        out is Some ==> out->0@ == path_file_stem(path@)->0,
{
    std::path::Path::new(path).file_stem().map(|stem| stem.to_string_lossy().into_owned())
}

} // verus!
