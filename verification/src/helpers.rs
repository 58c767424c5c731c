//! Where a stored file and its thumbnail live below the storage root.

use vstd::prelude::*;
use crate::config::Opt;
use crate::THUMBNAIL_SUBDIR;

verus! {

/// The name that `sanitize_filename::sanitize` makes of `name`, on the
/// platform the library is built for.
pub uninterp spec fn sanitized_name(name: Seq<char>) -> Seq<char>;

/// The path that `std::path::Path::join` makes of `base` with `name`
/// adjoined, on the platform the library is built for.
pub uninterp spec fn path_join(base: Seq<char>, name: Seq<char>) -> Seq<char>;

/// A name that cannot leave the directory it is joined to: it holds no path
/// separator and is neither `.` nor `..`.
pub open spec fn is_safe_name(name: Seq<char>) -> bool {
    &&& !name.contains('/')
    &&& !name.contains('\\')
    &&& name != seq!['.']
    &&& name != seq!['.', '.']
}

/// Calls `sanitize_filename::sanitize`, which removes from `name` the
/// characters `/ ? < > \ : * | "` and the control characters, empties a name
/// made of dots only, and cuts the rest to at most 255 bytes; built for
/// Windows it also empties the names of devices and removes dots and spaces
/// at the end.
///
/// Trusted: that the result is a function of `name` alone; that no `/` and no
/// `\` is left in it, both being among the characters removed; and that it is
/// neither `.` nor `..`, a name of dots only having been emptied before the
/// cut, which leaves at least 252 bytes where it cuts at all.
#[verifier::external_body]
pub(crate) fn sanitize(name: &str) -> (safe: String)
    ensures
        safe@ == sanitized_name(name@),
        is_safe_name(safe@),
{
    sanitize_filename::sanitize(name)
}

/// Calls `sanitize_filename::is_sanitized`, which looks in `name` for
/// everything that `sanitize_filename::sanitize` would remove or cut.
///
/// Trusted: that it answers `true` exactly for the names that `sanitize`
/// hands back unchanged, and for none that holds `/` or `\` or is `.` or
/// `..`. Each of its tests is the pattern of one step of `sanitize`, every
/// step that finds its pattern shortens the name, and no step lengthens it;
/// the first test refuses the two separators and the third a name of dots
/// only.
#[verifier::external_body]
pub(crate) fn is_sanitized(name: &str) -> (clean: bool)
    ensures
        clean == (sanitized_name(name@) == name@),
        clean ==> is_safe_name(name@),
{
    sanitize_filename::is_sanitized(name)
}

/// Calls `std::path::Path::join` on `base` with `name`.
///
/// Trusted: that the result is a function of the two texts alone. Both are
/// text, so the joined path is text too and nothing is lost in handing it
/// back as a `String`.
#[verifier::external_body]
pub(crate) fn join_path(base: &str, name: &str) -> (path: String)
    ensures
        path@ == path_join(base@, name@),
{
    std::path::Path::new(base).join(name).to_string_lossy().into_owned()
}

/// The directory that holds the thumbnails, as a path below the storage
/// root.
pub open spec fn spec_thumbnail_dir(base_dir: Seq<char>) -> Seq<char> {
    path_join(base_dir, THUMBNAIL_SUBDIR@)
}

/// The path of the stored file called `filename`.
pub open spec fn spec_filename_path(filename: Seq<char>, base_dir: Seq<char>) -> Seq<char> {
    path_join(base_dir, sanitized_name(filename))
}

/// The path of the thumbnail of the stored file called `filename`.
pub open spec fn spec_thumbnail_filename_path(filename: Seq<char>, base_dir: Seq<char>) -> Seq<
    char,
> {
    path_join(spec_thumbnail_dir(base_dir), sanitized_name(filename))
}

/// The directory in which uploads are stored.
pub fn get_base_dir(opt: &Opt) -> (dir: &str)
    ensures
        dir@ == opt.base_dir@,
{
    opt.base_dir.as_str()
}

/// The directory that holds the thumbnails: `thumbnails` below the storage
/// root.
pub fn get_thumbnail_dir(opt: &Opt) -> (dir: String)
    ensures
        dir@ == spec_thumbnail_dir(opt.base_dir@),
{
    join_path(opt.base_dir.as_str(), THUMBNAIL_SUBDIR)
}

/// The path of the stored file called `filename`: its sanitized name, joined
/// to the storage root. Whatever `filename` holds, the name joined has no
/// path separator in it and is neither `.` nor `..`.
pub fn filename_path(filename: &str, opt: &Opt) -> (path: String)
    ensures
        path@ == spec_filename_path(filename@, opt.base_dir@),
        is_safe_name(sanitized_name(filename@)),
{
    let name = sanitize(filename);
    join_path(opt.base_dir.as_str(), name.as_str())
}

/// The path of the thumbnail of the stored file called `filename`: its
/// sanitized name, joined to the thumbnail directory.
pub fn thumbnail_filename_path(filename: &str, opt: &Opt) -> (path: String)
    ensures
        path@ == spec_thumbnail_filename_path(filename@, opt.base_dir@),
        is_safe_name(sanitized_name(filename@)),
{
    let dir = get_thumbnail_dir(opt);
    let name = sanitize(filename);
    join_path(dir.as_str(), name.as_str())
}

} // verus!
