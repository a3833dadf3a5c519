use vstd::prelude::*;

verus! {

/// What `pathdiff::diff_paths(path, base)` gives: the path that leads from
/// `base` to `path`, when there is one.
pub uninterp spec fn relative_path(path: Seq<char>, base: Seq<char>) -> Option<Seq<char>>;

/// What `Path::join` gives for `base` and `rel`.
pub uninterp spec fn joined_path(base: Seq<char>, rel: Seq<char>) -> Seq<char>;

/// What `Path::parent` gives for `p`.
pub uninterp spec fn parent_path(p: Seq<char>) -> Option<Seq<char>>;

/// What `Path::with_extension` gives for `p` and `ext`.
pub uninterp spec fn with_extension_path(p: Seq<char>, ext: Seq<char>) -> Seq<char>;

/// What `Path::is_absolute` says of `p`.
pub uninterp spec fn is_absolute_path(p: Seq<char>) -> bool;

/// What `Path::file_name` gives for `p`.
pub uninterp spec fn file_name_of(p: Seq<char>) -> Option<Seq<char>>;

/// The views of an optional string.
pub open spec fn opt_text(o: Option<String>) -> Option<Seq<char>> {
    match o {
        Some(s) => Some(s@),
        None => None,
    }
}

/// Relies on `pathdiff::diff_paths`, which compares the two paths' components
/// without touching the filesystem. When only `path` is absolute it is handed
/// back as it is; when only `base` is, there is no answer.
#[verifier::external_body]
pub(crate) fn diff_paths(path: &str, base: &str) -> (r: Option<String>)
    ensures
        opt_text(r) == relative_path(path@, base@),
        is_absolute_path(path@) && !is_absolute_path(base@) ==> opt_text(r) == Some(path@),
        !is_absolute_path(path@) && is_absolute_path(base@) ==> r is None,
{
    pathdiff::diff_paths(path, base).map(|p| p.to_string_lossy().into_owned())
}

/// Relies on `std::path::Path::join`: `rel` appended to `base`.
#[verifier::external_body]
pub(crate) fn join_path(base: &str, rel: &str) -> (r: String)
    ensures
        r@ == joined_path(base@, rel@),
{
    std::path::Path::new(base).join(rel).to_string_lossy().into_owned()
}

/// Relies on `std::path::Path::parent`: the path without its last component.
#[verifier::external_body]
pub(crate) fn parent(p: &str) -> (r: Option<String>)
    ensures
        opt_text(r) == parent_path(p@),
{
    std::path::Path::new(p).parent().map(|q| q.to_string_lossy().into_owned())
}

/// Relies on `std::path::Path::with_extension`: the path with its extension
/// replaced by `ext`. It panics when `ext` holds a path separator, so such an
/// extension is left out.
#[verifier::external_body]
pub(crate) fn with_extension(p: &str, ext: &str) -> (r: String)
    requires
        forall|i: int| 0 <= i < ext@.len() ==> ext@[i] != '/' && ext@[i] != '\\',
    ensures
        r@ == with_extension_path(p@, ext@),
{
    std::path::Path::new(p).with_extension(ext).to_string_lossy().into_owned()
}

/// Relies on `std::path::Path::is_absolute`.
#[verifier::external_body]
pub(crate) fn is_absolute(p: &str) -> (r: bool)
    ensures
        r == is_absolute_path(p@),
{
    std::path::Path::new(p).is_absolute()
}

/// Relies on `std::path::Path::file_name`: the last component, unless it is `..`.
#[verifier::external_body]
pub(crate) fn file_name(p: &str) -> (r: Option<String>)
    ensures
        opt_text(r) == file_name_of(p@),
{
    std::path::Path::new(p).file_name().map(|n| n.to_string_lossy().into_owned())
}

} // verus!
