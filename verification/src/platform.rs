//! What the library asks of the platform: path inspection and the file
//! system.

use vstd::prelude::*;

verus! {

/// A path that is a single file name on every platform: not empty, not `.`
/// or `..`, and without `/`, `\\` or `:`.
pub open spec fn is_plain_name(path: Seq<char>) -> bool {
    &&& path.len() > 0
    &&& path != "."@
    &&& path != ".."@
    &&& forall|i: int| 0 <= i < path.len() ==> #[trigger] path[i] != '/' && path[i] != '\\' && path[i] != ':'
}

/// The position of the last `c` in `s`, -1 when there is none.
pub open spec fn last_index_of(s: Seq<char>, c: char) -> int
    decreases s.len(),
{
    if s.len() == 0 {
        -1
    } else if s.last() == c {
        s.len() - 1
    } else {
        last_index_of(s.drop_last(), c)
    }
}

/// The text after the last `/` of a path, all of it when it has none.
pub open spec fn last_component(path: Seq<char>) -> Seq<char> {
    path.skip(last_index_of(path, '/') + 1)
}

/// A path whose file name is, on every platform, its text after the last
/// `/`: it holds no `\\` or `:` (so no Windows prefix), does not begin with
/// `//`, and that last part is a single file name (not empty, `.` or `..`).
pub open spec fn is_plain_path(path: Seq<char>) -> bool {
    &&& forall|i: int| 0 <= i < path.len() ==> #[trigger] path[i] != '\\' && path[i] != ':'
    &&& !(path.len() >= 2 && path[0] == '/' && path[1] == '/')
    &&& is_plain_name(last_component(path))
}

/// The stem of a file name, as `Path::file_stem` documents it: the whole
/// name when it has no `.` or its only `.` is the first character, else the
/// part before the final `.`.
pub open spec fn stem_of(name: Seq<char>) -> Seq<char> {
    let k = last_index_of(name, '.');
    if k <= 0 {
        name
    } else {
        name.take(k)
    }
}

/// The extension of a file name, as `Path::extension` documents it: none
/// when the name has no `.` or its only `.` is the first character, else
/// the part after the final `.`.
pub open spec fn extension_of(name: Seq<char>) -> Option<Seq<char>> {
    let k = last_index_of(name, '.');
    if k <= 0 {
        None
    } else {
        Some(name.skip(k + 1))
    }
}

/// The text of an optional string.
pub open spec fn optional_string(s: Option<String>) -> Option<Seq<char>> {
    match s {
        Some(v) => Some(v@),
        None => None,
    }
}

/// `std::path::Path::file_stem` of `path`: the file name without its final
/// extension, or `None` when the path has no file name. How a path splits
/// into components depends on the platform; of a path whose file name is its
/// text after the last `/` on every platform, the documentation gives the
/// stem of that name: the whole name when it has no `.` or begins with its
/// only `.`, else the part before the final `.`. Nothing is claimed of other
/// paths.
#[verifier::external_body]
pub(crate) fn file_stem(path: &str) -> (r: Option<String>)
    ensures
        is_plain_path(path@) ==> optional_string(r) == Some(stem_of(last_component(path@))),
{
    match std::path::Path::new(path).file_stem() {
        Some(stem) => Some(stem.to_string_lossy().into_owned()),
        None => None,
    }
}

/// `std::path::Path::extension` of `path`: the text after the final `.` of
/// the file name, or `None`. Of a path whose file name is its text after the
/// last `/` on every platform, the documentation gives the extension of that
/// name: none when it has no `.` or begins with its only `.`, else the part
/// after the final `.`. Nothing is claimed of other paths.
#[verifier::external_body]
pub(crate) fn file_extension(path: &str) -> (r: Option<String>)
    ensures
        is_plain_path(path@) ==> optional_string(r) == extension_of(last_component(path@)),
{
    match std::path::Path::new(path).extension() {
        Some(extension) => Some(extension.to_string_lossy().into_owned()),
        None => None,
    }
}

/// `std::path::Path::exists` on `path`: whether something is on disk there
/// at the time of the call. Nothing is claimed of the result.
#[verifier::external_body]
pub(crate) fn path_exists(path: &str) -> (r: bool) {
    std::path::Path::new(path).exists()
}

/// `std::path::MAIN_SEPARATOR`, the path separator of the platform the
/// library was built for. Nothing is claimed of its value.
#[verifier::external_body]
pub(crate) fn main_separator() -> (r: char) {
    std::path::MAIN_SEPARATOR
}

/// The null device of a platform whose path separator is `separator`:
/// `nul` on Windows, `/dev/null` elsewhere.
pub open spec fn spec_null_output(separator: char) -> Seq<char> {
    if separator == '\\' {
        "nul"@
    } else {
        "/dev/null"@
    }
}

/// The null device of a platform whose path separator is `separator`.
pub fn null_output_for(separator: char) -> (r: &'static str)
    ensures
        r@ == spec_null_output(separator),
{
    if separator == '\\' {
        "nul"
    } else {
        "/dev/null"
    }
}

} // verus!
