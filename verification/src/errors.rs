//! Error taxonomy of the catalog: domain errors (bad input, recoverable by
//! the caller) and infrastructure errors (transport, storage), united under
//! one top-level error type.
use vstd::prelude::*;
use crate::ids::{AlbumId, SongId};

verus! {

/// A domain rule was violated by some input; the offending raw input is
/// carried for diagnostics.
#[derive(Debug, Clone, PartialEq, Eq)]
pub enum DomainError {
    FailedToParseSongId { s: String },
    FailedToParseAlbumId { s: String },
    FailedToCreateAudioRawData,
    FailedToCreateSong { id: SongId },
    FailedToCreateAlbum { id: AlbumId },
    FailedToParseOriginGame { s: String },
    FailedToGetSongInAlbum { song_id: SongId, album_id: AlbumId },
}

/// Something outside the domain failed: the database, a transaction, or a
/// lookup that assumed presence. The database cause is carried as its
/// rendered message.
#[derive(Debug, Clone, PartialEq, Eq)]
pub enum InfraError {
    Database { cause: String },
    DatabaseTransaction { cause: String },
    SongNotFound { id: SongId },
    AlbumNotFound { id: AlbumId },
    FailedToLoadAudioRawData { path: String },
}

/// Top-level error: every failure is either a domain error or an
/// infrastructure error.
#[derive(Debug, Clone, PartialEq, Eq)]
pub enum Error {
    Domain { source: DomainError },
    Infra { source: InfraError },
}

impl From<DomainError> for Error {
    fn from(source: DomainError) -> (r: Self) {
        Error::Domain { source }
    }
}

impl vstd::std_specs::convert::FromSpecImpl<DomainError> for Error {
    open spec fn obeys_from_spec() -> bool {
        true
    }

    open spec fn from_spec(source: DomainError) -> Self {
        Error::Domain { source }
    }
}

impl From<InfraError> for Error {
    fn from(source: InfraError) -> (r: Self) {
        Error::Infra { source }
    }
}

impl vstd::std_specs::convert::FromSpecImpl<InfraError> for Error {
    open spec fn obeys_from_spec() -> bool {
        true
    }

    open spec fn from_spec(source: InfraError) -> Self {
        Error::Infra { source }
    }
}

} // verus!
