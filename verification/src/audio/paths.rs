//! File locations, derived with the path operations of `std`.

use vstd::prelude::*;

verus! {

/// The text of the path that `std::path::Path::join` gives for `base` and
/// `name`, on the platform the library is built for.
pub uninterp spec fn joined_path(base: Seq<char>, name: Seq<char>) -> Seq<char>;

/// The text of the path that `std::path::Path::with_extension` gives for
/// `path` and `extension`, on the platform the library is built for.
pub uninterp spec fn path_with_extension(path: Seq<char>, extension: Seq<char>) -> Seq<char>;

/// An extension that `with_extension` accepts: one without a path separator.
pub open spec fn plain_extension(extension: Seq<char>) -> bool {
    forall|i: int| 0 <= i < extension.len() ==> extension[i] != '/' && extension[i] != '\\'
}

/// Where the file `stem` with the extension `extension` lies in `dir`.
pub open spec fn file_location(dir: Seq<char>, stem: Seq<char>, extension: Seq<char>) -> Seq<char> {
    path_with_extension(joined_path(dir, stem), extension)
}

/// Calls `std::path::Path::join`. Both arguments are valid UTF-8, so the path
/// it builds is too, and its text is handed back unchanged; the contract only
/// names that text.
#[verifier::external_body]
fn join(base: &str, name: &str) -> (path: String)
    ensures
        path@ == joined_path(base@, name@),
{
    std::path::Path::new(base).join(name).to_string_lossy().into_owned()
}

/// Calls `std::path::Path::with_extension`, which panics on an extension that
/// holds a path separator: such an extension is left out. The contract only
/// names the text of the path that comes back.
#[verifier::external_body]
fn with_extension(path: &str, extension: &str) -> (replaced: String)
    requires
        plain_extension(extension@),
    ensures
        replaced@ == path_with_extension(path@, extension@),
{
    std::path::Path::new(path).with_extension(extension).to_string_lossy().into_owned()
}

/// The location of the file `stem` with the extension `extension` in `dir`.
pub fn file_in(dir: &str, stem: &str, extension: &str) -> (path: String)
    requires
        plain_extension(extension@),
    ensures
        path@ == file_location(dir@, stem@, extension@),
{
    let joined = join(dir, stem);
    with_extension(joined.as_str(), extension)
}

/// The directory in which the application keeps its files, under the user's
/// home directory.
pub open spec fn app_dir_location(home: Seq<char>) -> Seq<char> {
    joined_path(home, "voechoal"@)
}

/// The directory in which the application keeps its files.
pub fn app_dir(home_dir: &str) -> (dir: String)
    ensures
        dir@ == app_dir_location(home_dir@),
{
    join(home_dir, "voechoal")
}

/// Where the recording `id` is stored below `dir`.
pub open spec fn wav_location(dir: Seq<char>, id: Seq<char>) -> Seq<char> {
    file_location(dir, id, "wav"@)
}

/// The storage location of the recording `id` below `dir`.
pub fn wav_file(dir: &str, id: &str) -> (path: String)
    ensures
        path@ == wav_location(dir@, id@),
{
    proof {
        reveal_strlit("wav");
    }
    file_in(dir, id, "wav")
}

/// Where the catalog's document lies below `dir`.
pub open spec fn data_file_location(dir: Seq<char>) -> Seq<char> {
    file_location(dir, "data"@, "json"@)
}

/// The location of the document that persists the catalog.
pub fn audio_items_data_file(app_dir: &str) -> (path: String)
    ensures
        path@ == data_file_location(app_dir@),
{
    proof {
        reveal_strlit("json");
    }
    file_in(app_dir, "data", "json")
}

} // verus!
