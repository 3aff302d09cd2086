//! What the metadata service tells of a recording.

use vstd::prelude::*;

verus! {

/// A recording as the metadata service describes it.
#[derive(Debug, PartialEq, Eq)]
pub struct MusicbrainzAPIRecordingResponse {
    pub id: String,
    pub video: bool,
    pub first_release_date: String,
    /// The length in milliseconds.
    pub length: i32,
    pub isrcs: Vec<String>,
    pub disambiguation: String,
    pub artist_credit: Vec<ArtistCredit>,
    pub title: String,
    pub releases: Vec<Release>,
}

/// One artist's part in a recording.
#[derive(Debug, PartialEq, Eq)]
pub struct ArtistCredit {
    pub joinphrase: String,
    pub name: String,
    pub artist: Artist,
}

/// An artist.
#[derive(Debug, PartialEq, Eq)]
pub struct Artist {
    pub disambiguation: String,
    pub artist_type: String,
    pub name: String,
    pub id: String,
    pub sort_name: String,
    pub type_id: String,
}

/// A release that holds the recording.
#[derive(Debug, PartialEq, Eq)]
pub struct Release {
    pub packaging: String,
    pub date: String,
    pub packaging_id: String,
    pub barcode: String,
    pub text_representation: TextRepresentation,
    pub id: String,
    pub status_id: String,
    pub release_events: Vec<ReleaseEvent>,
    pub disambiguation: String,
    pub title: String,
    pub status: String,
    pub quality: String,
    pub country: String,
}

/// The script and language in which a release is written.
#[derive(Debug, PartialEq, Eq)]
pub struct TextRepresentation {
    pub script: String,
    pub language: String,
}

/// When and where a release came out.
#[derive(Debug, PartialEq, Eq)]
pub struct ReleaseEvent {
    pub date: String,
    pub area: Area,
}

/// A region of the world.
#[derive(Debug, PartialEq, Eq)]
pub struct Area {
    pub disambiguation: String,
    pub iso_3166_1_codes: Vec<String>,
    pub sort_name: String,
    pub id: String,
    pub area_type: Option<String>,
    pub name: String,
    pub type_id: Option<String>,
}

} // verus!
