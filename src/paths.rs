//! Paths as text, and the calls that interpret them.
use vstd::prelude::*;
use crate::text::views;

verus! {

/// What `std::path::Path::ancestors` yields for a directory.
pub uninterp spec fn ancestors_of(dir: Seq<char>) -> Seq<Seq<char>>;

/// What `std::path::Path::join` gives for a base and a name.
pub uninterp spec fn joined(base: Seq<char>, name: Seq<char>) -> Seq<char>;

/// What `std::path::Path::file_name` gives for a path.
pub uninterp spec fn file_name_of(path: Seq<char>) -> Option<Seq<char>>;

/// A single ordinary path component on every platform: not empty, without
/// `/`, `\` or `:` (so without a separator or a drive prefix), and neither
/// `.` nor `..`.
pub open spec fn is_plain_name(s: Seq<char>) -> bool {
    &&& s.len() > 0
    &&& forall|i: int| 0 <= i < s.len() ==> s[i] != '/' && s[i] != '\\' && s[i] != ':'
    &&& s != seq!['.']
    &&& s != seq!['.', '.']
}

pub open spec fn opt_view(o: Option<String>) -> Option<Seq<char>> {
    match o {
        Some(s) => Some(s@),
        None => None,
    }
}

/// Relies on `std::path::Path::ancestors`: the directory itself comes first,
/// then each parent in turn up to the root.
#[verifier::external_body]
pub(crate) fn ancestor_dirs(dir: &str) -> (r: Vec<String>)
    ensures
        views(r@) == ancestors_of(dir@),
        r@.len() >= 1,
        r@[0]@ == dir@,
{
    std::path::Path::new(dir).ancestors().map(|p| p.to_string_lossy().into_owned()).collect()
}

/// Relies on `std::path::Path::join`: the path of `name` under `base`. How
/// a separator is added depends on the platform; where `base` already ends
/// in `/` and holds no backslash (so it is no verbatim path) and `name` is a
/// plain component, no separator is added on any.
#[verifier::external_body]
pub(crate) fn join_path(base: &str, name: &str) -> (r: String)
    ensures
        r@ == joined(base@, name@),
        base@.len() > 0 && base@.last() == '/' && !base@.contains('\\') && is_plain_name(name@) ==> r@
            == base@ + name@,
{
    std::path::Path::new(base).join(name).to_string_lossy().into_owned()
}

/// Relies on `std::path::Path::file_name`: the last component of a path,
/// none where the path ends in `..` or is a root; a single ordinary component
/// is its own file name.
#[verifier::external_body]
pub(crate) fn file_name(path: &str) -> (r: Option<String>)
    ensures
        opt_view(r) == file_name_of(path@),
        is_plain_name(path@) ==> r is Some && r->Some_0@ == path@,
{
    std::path::Path::new(path).file_name().map(|n| n.to_string_lossy().into_owned())
}

/// Relies on `dirs::config_dir`: the user's configuration directory, which
/// depends on the platform and the environment, so nothing is known of it.
#[verifier::external_body]
pub(crate) fn user_config_dir() -> (r: Option<String>)
{
    dirs::config_dir().map(|p| p.to_string_lossy().into_owned())
}

/// Relies on `dirs::home_dir`: the user's home directory, which depends on
/// the environment, so nothing is known of it.
#[verifier::external_body]
pub(crate) fn user_home_dir() -> (r: Option<String>)
{
    dirs::home_dir().map(|p| p.to_string_lossy().into_owned())
}

} // verus!
