//! Shapes of the remote catalog's answers: summary and detail records for
//! songs and albums, as the transport adapter hands them to the engine.
//! Identifiers arrive as decimal strings and URLs as plain text; parsing
//! and validation happen in the engine and the domain constructors.
use vstd::prelude::*;

verus! {

/// The remote service's answer envelope: a status code and the payload.
#[derive(Debug, Clone)]
pub struct MsrResponse<T> {
    pub code: i32,
    pub data: T,
}

/// The full remote song listing.
#[derive(Debug, Clone)]
pub struct SongSummaries {
    pub list: Vec<SongSummary>,
}

/// One entry of the remote song listing.
#[derive(Debug, Clone)]
pub struct SongSummary {
    pub id: String,
    pub name: String,
    pub belong_album_id: String,
    pub artists: Vec<String>,
}

/// The lightweight remote form of an album.
#[derive(Debug, Clone)]
pub struct AlbumSummary {
    pub id: String,
    pub name: String,
    pub cover_url: String,
    pub artists: Vec<String>,
}

/// The full remote record of one song: metadata plus the URLs of its
/// binary assets.
#[derive(Debug, Clone)]
pub struct Song {
    pub id: String,
    pub name: String,
    pub belong_album_id: String,
    pub source_url: String,
    pub lyric_url: Option<String>,
    pub artists: Vec<String>,
}

/// The remote record of one album without its member list.
#[derive(Debug, Clone)]
pub struct Album {
    pub id: String,
    pub name: String,
    pub intro: String,
    pub belong: String,
    pub cover_url: String,
    pub cover_de_url: String,
    pub artists: Vec<String>,
}

/// The remote record of one album expanded with its ordered member list.
#[derive(Debug, Clone)]
pub struct AlbumDetail {
    pub id: String,
    pub name: String,
    pub intro: String,
    pub belong: String,
    pub cover_url: String,
    pub cover_de_url: String,
    pub song_list: Vec<SongShort>,
}

/// One member entry of an album's remote member list.
#[derive(Debug, Clone)]
pub struct SongShort {
    pub id: String,
    pub name: String,
    pub artists: Vec<String>,
}

} // verus!
