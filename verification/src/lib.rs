//! The decisions of a media service that provisions command-line tools, runs
//! them to download and fingerprint media, and identifies a file through two
//! web services. Nothing here touches the file system, the network or a
//! process: each request is a state that is taken one step further on each
//! event that the caller reports, and that tells the caller what to do next.

pub mod acoustid;
pub mod archive;
pub mod commands;
pub mod config;
pub mod errors;
pub mod identify;
pub mod install;
pub mod library;
pub mod media;
pub mod musicbrainz;
pub mod provision;
pub mod status;
pub mod text;
pub mod tools;
pub mod version;
