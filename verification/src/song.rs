//! Domain aggregates of the local catalog: audio payloads, songs and
//! albums, with validating constructors that enforce the catalog's
//! invariants (derived track numbering, single-disk albums).
use vstd::prelude::*;
use vstd::string::*;
use crate::errors::DomainError;
use crate::ids::{AlbumId, SongId};

verus! {

/// Raw byte buffer for audio payloads and cover images; the library treats
/// its contents as opaque and only carries it through.
#[verifier::external_type_specification]
#[verifier::external_body]
pub struct ExBytes(bytes::Bytes);

/// Relies on bytes::Bytes::clone: a clone shares the same contents, so it
/// equals the buffer it was cloned from.
pub assume_specification[ <bytes::Bytes as Clone>::clone ](b: &bytes::Bytes) -> (res: bytes::Bytes)
    ensures
        res == *b,
;

/// Closed set of audio container formats the catalog stores.
#[derive(Debug, Default, Copy, Clone, Hash, PartialEq, Eq, Structural)]
pub enum AudioFormat {
    #[default]
    Flac,
    Mp3,
    Wav,
}

impl AudioFormat {
    /// The stored name of this format, as the local store writes it.
    pub fn name(&self) -> (r: String)
        ensures
            self is Flac ==> r@ == "Flac"@,
            self is Mp3 ==> r@ == "Mp3"@,
            self is Wav ==> r@ == "Wav"@,
    {
        match self {
            AudioFormat::Flac => String::from_str("Flac"),
            AudioFormat::Mp3 => String::from_str("Mp3"),
            AudioFormat::Wav => String::from_str("Wav"),
        }
    }

    /// Parse a stored format name back into the format; unknown names give
    /// nothing.
    pub fn try_from_name(s: &String) -> (r: Option<AudioFormat>)
        ensures
            s@ == "Flac"@ ==> r == Some(AudioFormat::Flac),
            s@ == "Mp3"@ ==> r == Some(AudioFormat::Mp3),
            s@ == "Wav"@ ==> r == Some(AudioFormat::Wav),
            s@ != "Flac"@ && s@ != "Mp3"@ && s@ != "Wav"@ ==> r is None,
    {
        proof {
            reveal_strlit("Flac");
            reveal_strlit("Mp3");
            reveal_strlit("Wav");
            assert("Flac"@.len() == 4);
            assert("Mp3"@.len() == 3);
            assert("Mp3"@[0] == 'M');
            assert("Wav"@[0] == 'W');
            assert("Flac"@ != "Mp3"@);
            assert("Flac"@ != "Wav"@);
            assert("Mp3"@ != "Wav"@);
        }
        if s.eq(&String::from_str("Flac")) {
            Some(AudioFormat::Flac)
        } else if s.eq(&String::from_str("Mp3")) {
            Some(AudioFormat::Mp3)
        } else if s.eq(&String::from_str("Wav")) {
            Some(AudioFormat::Wav)
        } else {
            None
        }
    }
}

/// Raw audio bytes together with their format and the path the payload is
/// (to be) stored under.
#[derive(Debug, Clone, PartialEq, Eq)]
pub struct AudioRawData {
    pub raw: bytes::Bytes,
    pub format: AudioFormat,
    pub save_path: String,
}

impl AudioRawData {
    /// Wrap fresh bytes from the remote catalog. The storage path and the
    /// format are provisional: path empty, format the default, until a
    /// content-addressing scheme decides them.
    pub fn try_new(raw: bytes::Bytes) -> (r: Result<Self, DomainError>)
        ensures
            r is Ok,
            r matches Ok(d) ==> {
                &&& d.raw == raw
                &&& d.format == AudioFormat::Flac
                &&& d.save_path@ == Seq::<char>::empty()
            },
    {
        let save_path = String::new();
        let format = AudioFormat::Flac;
        Ok(AudioRawData { raw, format, save_path })
    }

    /// Rehydrate a payload already validated at write time from its stored
    /// path and format.
    pub fn reconstruct(raw: bytes::Bytes, format: AudioFormat, save_path: String) -> (r: Self)
        ensures
            r == (AudioRawData { raw, format, save_path }),
    {
        AudioRawData { raw, format, save_path }
    }
}

/// First position of `id` in `l`, or a negative value when absent.
pub open spec fn first_index_of_id(l: Seq<SongId>, id: SongId) -> int
    decreases l.len(),
{
    if l.len() == 0 {
        -1
    } else if l[0] == id {
        0
    } else {
        let sub = first_index_of_id(l.drop_first(), id);
        if sub < 0 {
            -1
        } else {
            1 + sub
        }
    }
}

/// `first_index_of_id` finds the first occurrence exactly: it is
/// non-negative exactly when the id occurs, and then points at the first
/// occurrence.
pub proof fn lemma_first_index_of_id(l: Seq<SongId>, id: SongId)
    ensures
        first_index_of_id(l, id) >= 0 <==> l.contains(id),
        l.contains(id) ==> {
            let ix = first_index_of_id(l, id);
            &&& 0 <= ix < l.len()
            &&& l[ix] == id
            &&& forall|j: int| 0 <= j < ix ==> l[j] != id
        },
    decreases l.len(),
{
    if l.len() > 0 && l[0] != id {
        let tail = l.drop_first();
        lemma_first_index_of_id(tail, id);
        assert(l.contains(id) <==> tail.contains(id)) by {
            if l.contains(id) {
                let w = choose|w: int| 0 <= w < l.len() && l[w] == id;
                assert(tail[w - 1] == id);
                assert(tail.contains(id));
            }
            if tail.contains(id) {
                let w = choose|w: int| 0 <= w < tail.len() && tail[w] == id;
                assert(l[w + 1] == id);
                assert(l.contains(id));
            }
        }
        if l.contains(id) {
            let subix = first_index_of_id(tail, id);
            let ix = first_index_of_id(l, id);
            assert(ix == 1 + subix);
            assert(l[ix] == tail[subix]);
            assert forall|j: int| 0 <= j < ix implies l[j] != id by {
                if j > 0 {
                    assert(l[j] == tail[j - 1]);
                }
            }
        }
    }
}

/// A song of the local catalog. The track number is derived, never chosen
/// by callers: it is one past the position of the song's id in its album's
/// ordered member list.
#[derive(Debug, Clone, PartialEq, Eq)]
pub struct Song {
    pub id: SongId,
    pub name: String,
    pub belong_album_id: AlbumId,
    pub track_number: u8,
    pub disk_number: u8,
    pub source: AudioRawData,
    pub artists: Vec<String>,
}

impl Song {
    /// Build a validated song from the ordered member list of its album.
    ///
    /// When `id` occurs in `song_list` at first position `ix` with
    /// `ix + 1` within the track-number range, the song is returned with
    /// `track_number == ix + 1` and `disk_number == 1`. When `id` is absent
    /// the membership domain error is returned and nothing is constructed;
    /// a first position too large for the track-number range fails with the
    /// song-creation error.
    pub fn try_new(
        id: SongId,
        name: String,
        belong_album_id: AlbumId,
        song_list: &[SongId],
        source: AudioRawData,
        artists: Vec<String>,
    ) -> (r: Result<Self, DomainError>)
        ensures
            !song_list@.contains(id) ==> r == Err::<Song, DomainError>(
                DomainError::FailedToGetSongInAlbum { song_id: id, album_id: belong_album_id },
            ),
            song_list@.contains(id) && first_index_of_id(song_list@, id) + 1 <= 255 ==> r == Ok::<
                Song,
                DomainError,
            >(
                Song {
                    id,
                    name,
                    belong_album_id,
                    track_number: (first_index_of_id(song_list@, id) + 1) as u8,
                    disk_number: 1u8,
                    source,
                    artists,
                },
            ),
            song_list@.contains(id) && first_index_of_id(song_list@, id) + 1 > 255 ==> r == Err::<
                Song,
                DomainError,
            >(DomainError::FailedToCreateSong { id }),
    {
        proof {
            lemma_first_index_of_id(song_list@, id);
        }
        let n = song_list.len();
        let mut i: usize = 0;
        while i < n
            invariant
                n == song_list@.len(),
                0 <= i <= n,
                forall|j: int| 0 <= j < i ==> song_list@[j] != id,
            decreases n - i,
        {
            if song_list[i].0 == id.0 {
                assert(song_list@[i as int] == id);
                assert(first_index_of_id(song_list@, id) == i) by {
                    lemma_first_index_of_id(song_list@, id);
                }
                if i + 1 > 255 {
                    return Err(DomainError::FailedToCreateSong { id });
                }
                let track_number = (i + 1) as u8;
                let disk_number = 1u8;
                return Ok(
                    Song { id, name, belong_album_id, track_number, disk_number, source, artists },
                );
            }
            assert(song_list@[i as int] != id);
            i = i + 1;
        }
        Err(DomainError::FailedToGetSongInAlbum { song_id: id, album_id: belong_album_id })
    }

    /// Rehydrate a song from storage with the track and disk numbers that
    /// were validated when it was first written; the caller is responsible
    /// for their consistency.
    pub fn try_reconstruct(
        id: SongId,
        name: String,
        belong_album_id: AlbumId,
        track_number: u8,
        disk_number: u8,
        source: AudioRawData,
        artists: Vec<String>,
    ) -> (r: Result<Self, DomainError>)
        ensures
            r == Ok::<Song, DomainError>(
                Song { id, name, belong_album_id, track_number, disk_number, source, artists },
            ),
    {
        Ok(Song { id, name, belong_album_id, track_number, disk_number, source, artists })
    }
}

/// An album of the local catalog. Its ordered member list is authoritative:
/// `total_tracks` always equals the member count, and every album spans a
/// single disk.
#[derive(Debug, Clone)]
pub struct Album {
    pub id: AlbumId,
    pub name: String,
    pub total_tracks: u8,
    pub total_disks: u8,
    pub intro: String,
    pub belong: OriginGame,
    pub cover_image: bytes::Bytes,
    pub artists: Vec<String>,
    pub song_list: Vec<SongId>,
}

impl Album {
    /// The album invariant: the member list is authoritative, so the track
    /// total is its length, and every album spans a single disk.
    pub open spec fn wf(self) -> bool {
        self.total_tracks == self.song_list@.len() && self.total_disks == 1
    }

    /// Build a validated album: `total_tracks` is the length of the member
    /// list (the empty list included) and `total_disks` is one. A member
    /// list too long for the track-number range fails with the
    /// album-creation error.
    pub fn try_new(
        id: AlbumId,
        name: String,
        intro: String,
        belong: OriginGame,
        cover_image: bytes::Bytes,
        artists: Vec<String>,
        song_list: Vec<SongId>,
    ) -> (r: Result<Self, DomainError>)
        ensures
            song_list@.len() <= 255 ==> r == Ok::<Album, DomainError>(
                Album {
                    id,
                    name,
                    total_tracks: song_list@.len() as u8,
                    total_disks: 1u8,
                    intro,
                    belong,
                    cover_image,
                    artists,
                    song_list,
                },
            ),
            song_list@.len() > 255 ==> r == Err::<Album, DomainError>(
                DomainError::FailedToCreateAlbum { id },
            ),
            r matches Ok(a) ==> a.wf(),
    {
        if song_list.len() > 255 {
            return Err(DomainError::FailedToCreateAlbum { id });
        }
        let total_tracks = song_list.len() as u8;
        let total_disks = 1u8;
        Ok(
            Album {
                id,
                name,
                total_tracks,
                total_disks,
                intro,
                belong,
                cover_image,
                artists,
                song_list,
            },
        )
    }

    /// Rehydrate an album from storage with the totals that were validated
    /// when it was first written; the caller is responsible for their
    /// consistency.
    pub fn try_reconstruct(
        id: AlbumId,
        name: String,
        total_tracks: u8,
        total_disks: u8,
        intro: String,
        belong: OriginGame,
        cover_image: bytes::Bytes,
        artists: Vec<String>,
        song_list: Vec<SongId>,
    ) -> (r: Result<Self, DomainError>)
        ensures
            r == Ok::<Album, DomainError>(
                Album {
                    id,
                    name,
                    total_tracks,
                    total_disks,
                    intro,
                    belong,
                    cover_image,
                    artists,
                    song_list,
                },
            ),
    {
        Ok(
            Album {
                id,
                name,
                total_tracks,
                total_disks,
                intro,
                belong,
                cover_image,
                artists,
                song_list,
            },
        )
    }
}

/// Closed set of origin games an album can belong to, parsed from the
/// remote catalog's lowercase tag.
#[derive(Debug, Clone, Hash, PartialEq, Eq, PartialOrd, Ord)]
pub enum OriginGame {
    Arknights,
}

impl OriginGame {
    /// Case-sensitive match of an origin tag against the closed set;
    /// unknown tags fail with the origin-parse domain error carrying the
    /// offending tag.
    pub fn try_new(s: String) -> (r: Result<Self, DomainError>)
        ensures
            s@ == "arknights"@ ==> r == Ok::<OriginGame, DomainError>(OriginGame::Arknights),
            s@ != "arknights"@ ==> r == Err::<OriginGame, DomainError>(
                DomainError::FailedToParseOriginGame { s },
            ),
    {
        if s.eq(&String::from_str("arknights")) {
            Ok(OriginGame::Arknights)
        } else {
            Err(DomainError::FailedToParseOriginGame { s })
        }
    }
}

impl Default for OriginGame {
    fn default() -> (r: Self)
        ensures
            r == OriginGame::Arknights,
    {
        OriginGame::Arknights
    }
}

} // verus!
