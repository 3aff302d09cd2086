//! The library directory: listing it, serving from it, and clearing
//! directories by name.

use crate::errors::{ResponseStatus, ServerError};
use crate::install::DirectoryEntry;
use crate::text::{chars_of, has_prefix, lemma_filter_push, starts_with, str_eq};
use vstd::prelude::*;

verus! {

/// The answer to a request to list the library.
#[derive(Debug, PartialEq, Eq)]
pub struct LibraryListResponse {
    pub library_dir: String,
    /// The names in the library directory.
    pub files: Vec<String>,
}

/// The greeting of the service.
#[derive(Debug, PartialEq, Eq)]
pub struct HelloResponse {
    pub message: &'static str,
}

/// The media type under which a file with this extension is served.
pub open spec fn media_type(ext: Seq<char>) -> Seq<char> {
    if ext == "mp3"@ {
        "audio/mpeg"@
    } else if ext == "ogg"@ {
        "audio/ogg"@
    } else if ext == "opus"@ {
        "audio/opus"@
    } else {
        "application/octet-stream"@
    }
}

/// What `str::to_lowercase` makes of a text: its lower-case form by the
/// rules of Unicode.
pub uninterp spec fn lowercase(text: Seq<char>) -> Seq<char>;

/// A directory whose name, case set aside, begins with the prefix given in
/// lower case.
pub open spec fn is_named_like(entry: DirectoryEntry, lowered_prefix: Seq<char>) -> bool {
    &&& entry.is_directory
    &&& entry.file_name matches Some(name)
    &&& starts_with(lowercase(name@), lowered_prefix)
}

/// The paths of the directories among `entries` whose names match.
pub open spec fn named_like(
    entries: Seq<DirectoryEntry>,
    lowered_prefix: Seq<char>,
) -> Seq<String> {
    entries.filter(|e: DirectoryEntry| is_named_like(e, lowered_prefix)).map_values(
        |e: DirectoryEntry| e.path,
    )
}

/// `str::to_lowercase`: the lower-case form of `text`, a function of the
/// text alone.
#[verifier::external_body]
fn to_lowercase(text: &str) -> (lowered: String)
    ensures
        lowered@ == lowercase(text@),
{
    text.to_lowercase()
}

/// The greeting.
pub fn handle_api_hello() -> (r: (ResponseStatus, HelloResponse))
    ensures
        r.0 == ResponseStatus::Success,
        r.1.message@ == "Hello from the Ferrous Beats! Welcome to the API."@,
{
    (
        ResponseStatus::Success,
        HelloResponse { message: "Hello from the Ferrous Beats! Welcome to the API." },
    )
}

/// Answers a request to list the library from the listing of its directory:
/// a directory that is not there is a `BadRequest` without files, one that
/// is there is a `Success` with its names in the order of the listing.
pub fn handle_list_library_files(library_dir: String, listing: Option<Vec<String>>) -> (r: (
    ResponseStatus,
    LibraryListResponse,
))
    ensures
        r.1.library_dir == library_dir,
        match listing {
            Some(names) => r.0 == ResponseStatus::Success && r.1.files == names,
            None => r.0 == ResponseStatus::BadRequest && r.1.files@ == Seq::<String>::empty(),
        },
{
    match listing {
        Some(names) => (ResponseStatus::Success, LibraryListResponse { library_dir, files: names }),
        None => (
            ResponseStatus::BadRequest,
            LibraryListResponse { library_dir, files: Vec::new() },
        ),
    }
}

/// The media type under which a library file is served, by its extension:
/// a file without one cannot be served.
pub fn handle_play_audio(extension: Option<&str>) -> (r: Result<&'static str, ServerError>)
    ensures
        match extension {
            Some(ext) => r matches Ok(media) && media@ == media_type(ext@),
            None => r == Err::<&'static str, ServerError>(ServerError::NoExtension),
        },
{
    match extension {
        None => Err(ServerError::NoExtension),
        Some(ext) => {
            if str_eq(ext, "mp3") {
                Ok("audio/mpeg")
            } else if str_eq(ext, "ogg") {
                Ok("audio/ogg")
            } else if str_eq(ext, "opus") {
                Ok("audio/opus")
            } else {
                Ok("application/octet-stream")
            }
        },
    }
}

/// The paths of the directories among `entries` whose names, case set aside,
/// begin with `lowered_prefix`, a prefix already in lower case.
pub fn directories_named_like(entries: &Vec<DirectoryEntry>, lowered_prefix: &str) -> (paths: Vec<
    String,
>)
    ensures
        paths@ == named_like(entries@, lowered_prefix@),
{
    let prefix = chars_of(lowered_prefix);
    let mut paths: Vec<String> = Vec::new();
    let ghost like = |e: DirectoryEntry| is_named_like(e, lowered_prefix@);
    let mut i: usize = 0;
    proof {
        reveal(Seq::filter);
        assert(entries@.take(0) =~= Seq::<DirectoryEntry>::empty());
        assert(paths@ =~= named_like(entries@.take(0), lowered_prefix@));
    }
    while i < entries.len()
        invariant
            i <= entries.len(),
            prefix@ == lowered_prefix@,
            like == |e: DirectoryEntry| is_named_like(e, lowered_prefix@),
            paths@ == named_like(entries@.take(i as int), lowered_prefix@),
        decreases entries.len() - i,
    {
        let entry = &entries[i];
        proof {
            let seen = entries@.take(i as int);
            assert(entries@.take(i + 1) =~= seen.push(*entry));
            lemma_filter_push(seen, *entry, like);
            assert(seen.filter(like).push(*entry).map_values(|e: DirectoryEntry| e.path)
                =~= seen.filter(like).map_values(|e: DirectoryEntry| e.path).push(entry.path));
        }
        if entry.is_directory {
            match &entry.file_name {
                Some(name) => {
                    let lowered = to_lowercase(name.as_str());
                    let lowered_name = chars_of(lowered.as_str());
                    if has_prefix(&lowered_name, &prefix) {
                        paths.push(entry.path.clone());
                    }
                },
                None => {},
            }
        }
        i = i + 1;
    }
    assert(entries@.take(entries.len() as int) =~= entries@);
    paths
}

/// The paths of the directories among `entries`, the listing of a parent
/// directory, that are to be removed: those whose names begin with `prefix`,
/// case set aside on both sides.
pub fn remove_subdirectories_with_prefix(entries: &Vec<DirectoryEntry>, prefix: &str) -> (paths: Vec<
    String,
>)
    ensures
        paths@ == named_like(entries@, lowercase(prefix@)),
{
    let lowered = to_lowercase(prefix);
    directories_named_like(entries, lowered.as_str())
}

} // verus!
