//! Choosing the extractor for a downloaded archive by its file name.

use crate::errors::ServerError;
use crate::text::{chars_eq, chars_of, string_of};
use vstd::prelude::*;

verus! {

/// An archive format that can be extracted.
#[derive(Clone, Copy, Debug, PartialEq, Eq, Structural)]
pub enum ArchiveFormat {
    Zip,
}

/// The index of the last `.` of `name`, or -1 where it has none.
pub open spec fn last_dot(name: Seq<char>) -> int
    decreases name.len(),
{
    if name.len() == 0 {
        -1
    } else if name.last() == '.' {
        name.len() - 1
    } else {
        last_dot(name.drop_last())
    }
}

/// The extension of a file name: what follows its last `.`, unless the name
/// has no `.`, or none but a leading one, or is `..`.
pub open spec fn extension(name: Seq<char>) -> Option<Seq<char>> {
    if name == seq!['.', '.'] || last_dot(name) <= 0 {
        None
    } else {
        Some(name.skip(last_dot(name) + 1))
    }
}

/// What `decompress_file` answers for a file name.
pub open spec fn dispatched(name: Seq<char>, r: Result<ArchiveFormat, ServerError>) -> bool {
    match extension(name) {
        None => r == Err::<ArchiveFormat, ServerError>(ServerError::NoExtension),
        Some(ext) => if ext == "zip"@ {
            r == Ok::<ArchiveFormat, ServerError>(ArchiveFormat::Zip)
        } else {
            r matches Err(ServerError::UnsupportedFormat(named)) && named@ == ext
        },
    }
}

proof fn lemma_last_dot_found(name: Seq<char>, at: int)
    requires
        -1 <= at < name.len(),
        at >= 0 ==> name[at] == '.',
        forall|i: int| at < i < name.len() ==> name[i] != '.',
    ensures
        last_dot(name) == at,
    decreases name.len(),
{
    if name.len() > 0 && name.last() != '.' {
        lemma_last_dot_found(name.drop_last(), at);
    }
}

/// The extension of the file name `name`.
pub fn extension_of(name: &str) -> (r: Option<String>)
    ensures
        match extension(name@) {
            None => r is None,
            Some(ext) => r matches Some(found) && found@ == ext,
        },
{
    let v = chars_of(name);
    if v.len() == 2 && v[0] == '.' && v[1] == '.' {
        assert(v@ =~= seq!['.', '.']);
        return None;
    }
    let mut i: usize = v.len();
    while i > 0 && v[i - 1] != '.'
        invariant
            i <= v.len(),
            forall|k: int| i <= k < v.len() ==> v@[k] != '.',
        decreases i,
    {
        i = i - 1;
    }
    proof {
        lemma_last_dot_found(v@, i - 1);
        if v@ == seq!['.', '.'] {
            assert(v@.len() == 2 && v@[0] == '.' && v@[1] == '.');
        }
    }
    if i <= 1 {
        None
    } else {
        Some(string_of(&v, i, v.len()))
    }
}

/// Chooses the extractor for the archive stored under the file name `name`,
/// by its extension alone: `zip` is extracted, any other extension is an
/// `UnsupportedFormat` that names it, and a name without extension is a
/// `NoExtension`.
pub fn decompress_file(name: &str) -> (r: Result<ArchiveFormat, ServerError>)
    ensures
        dispatched(name@, r),
{
    match extension_of(name) {
        None => Err(ServerError::NoExtension),
        Some(ext) => {
            let given = chars_of(ext.as_str());
            let zip = chars_of("zip");
            if chars_eq(&given, &zip) {
                Ok(ArchiveFormat::Zip)
            } else {
                Err(ServerError::UnsupportedFormat(ext))
            }
        },
    }
}

/// A name that ends in `.zip` after a non-empty stem is extracted.
pub proof fn lemma_zip_is_supported(stem: Seq<char>)
    requires
        stem.len() > 0,
    ensures
        extension(stem + ".zip"@) == Some("zip"@),
{
    reveal_strlit(".zip");
    reveal_strlit("zip");
    let name = stem + ".zip"@;
    lemma_last_dot_found(name, stem.len() as int);
    assert(name.skip(stem.len() as int + 1) =~= "zip"@);
    assert(name != seq!['.', '.']) by {
        if name.len() == 2 {
            assert(false);
        }
    }
}

/// A name without a `.` has no extension.
pub proof fn lemma_no_dot_no_extension(name: Seq<char>)
    requires
        forall|i: int| 0 <= i < name.len() ==> name[i] != '.',
    ensures
        extension(name) is None,
{
    lemma_last_dot_found(name, -1);
}

} // verus!
