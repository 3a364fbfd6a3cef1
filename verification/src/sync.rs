//! The synchronization engine's decisions: which remote songs are new
//! relative to the local store, and how one remote song id is materialized
//! step by step into a validated, persisted aggregate. The surrounding
//! transport and storage calls are performed by an adapter that feeds
//! their results back in as events.
use vstd::prelude::*;
use vstd::pervasive::unreached;
use crate::errors::DomainError;
use crate::ids::{
    digits_to_nat, u32_to_digits, valid_id_chars, zero_pad, zero_padded_decimal, AlbumId, SongId,
};
use crate::iset::{id_set_contains, id_set_elems, id_set_insert, id_set_new};
use crate::msr;
use crate::msr::{AlbumDetail, SongShort, SongSummaries, SongSummary};
use crate::song::{first_index_of_id, Album, AudioFormat, AudioRawData, OriginGame, Song};

verus! {

/// Ids absent from `local`: membership, not position, decides.
pub open spec fn not_in_local(local: Seq<SongId>) -> spec_fn(SongId) -> bool {
    |id: SongId| !local.contains(id)
}

/// The songs present remotely but absent locally, in remote order: the set
/// difference that a synchronization run must materialize.
pub open spec fn diff_ids(remote: Seq<SongId>, local: Seq<SongId>) -> Seq<SongId> {
    remote.filter(not_in_local(local))
}

/// The ids a remote listing denotes, assuming each entry's id string is
/// valid.
pub open spec fn parsed_ids_of(l: Seq<SongSummary>) -> Seq<SongId> {
    Seq::new(l.len(), |i: int| SongId(digits_to_nat(l[i].id@) as u32))
}

/// Parse every id string of the remote song listing; the first malformed
/// entry aborts the whole parse with its id-parse error, and no partial
/// result is produced.
pub fn parse_summary_ids(remote: &SongSummaries) -> (r: Result<Vec<SongId>, DomainError>)
    ensures
        r is Ok <==> (forall|k: int|
            0 <= k < remote.list@.len() ==> valid_id_chars(#[trigger] remote.list@[k].id@)),
        r matches Ok(ids) ==> ids@ == parsed_ids_of(remote.list@),
        r matches Err(e) ==> exists|k: int|
            #![auto]
            {
                &&& 0 <= k < remote.list@.len()
                &&& !valid_id_chars(remote.list@[k].id@)
                &&& forall|j: int| 0 <= j < k ==> valid_id_chars(#[trigger] remote.list@[j].id@)
                &&& e == DomainError::FailedToParseSongId { s: remote.list@[k].id }
            },
{
    let n = remote.list.len();
    let mut ids: Vec<SongId> = Vec::new();
    let mut i: usize = 0;
    while i < n
        invariant
            n == remote.list@.len(),
            0 <= i <= n,
            ids@.len() == i,
            forall|k: int| 0 <= k < i ==> valid_id_chars(#[trigger] remote.list@[k].id@),
            forall|k: int|
                0 <= k < i ==> ids@[k] == SongId(
                    digits_to_nat(#[trigger] remote.list@[k].id@) as u32,
                ),
        decreases n - i,
    {
        let s = remote.list[i].id.clone();
        match SongId::try_new(s) {
            Ok(id) => {
                ids.push(id);
            },
            Err(e) => {
                return Err(e);
            },
        }
        i = i + 1;
    }
    proof {
        assert(ids@ =~= parsed_ids_of(remote.list@));
    }
    Ok(ids)
}

/// The remote ids absent from the local listing, in remote order: the set
/// difference of the two snapshots. Membership in the local listing is
/// tested through a hash set, so local order and duplicates are
/// irrelevant.
pub fn new_song_ids(remote_ids: &Vec<SongId>, local_ids: &Vec<SongId>) -> (r: Vec<SongId>)
    ensures
        r@ == diff_ids(remote_ids@, local_ids@),
{
    let mut seen = id_set_new();
    let mut j: usize = 0;
    while j < local_ids.len()
        invariant
            0 <= j <= local_ids@.len(),
            forall|v: u32|
                id_set_elems(seen).contains(v) <==> exists|k: int|
                    0 <= k < j && #[trigger] local_ids@[k].0 == v,
        decreases local_ids@.len() - j,
    {
        id_set_insert(&mut seen, local_ids[j].0);
        j = j + 1;
    }
    proof {
        assert forall|id: SongId| id_set_elems(seen).contains(id.0) <==> local_ids@.contains(
            id,
        ) by {
            if id_set_elems(seen).contains(id.0) {
                let k = choose|k: int| 0 <= k < local_ids@.len() && local_ids@[k].0 == id.0;
                assert(local_ids@[k] == id);
            }
            if local_ids@.contains(id) {
                let k = choose|k: int| 0 <= k < local_ids@.len() && local_ids@[k] == id;
                assert(local_ids@[k].0 == id.0);
            }
        }
    }
    let ghost pred = not_in_local(local_ids@);
    let mut r: Vec<SongId> = Vec::new();
    let mut i: usize = 0;
    while i < remote_ids.len()
        invariant
            0 <= i <= remote_ids@.len(),
            forall|id: SongId|
                #[trigger] id_set_elems(seen).contains(id.0) <==> local_ids@.contains(id),
            pred == not_in_local(local_ids@),
            r@ == remote_ids@.take(i as int).filter(pred),
        decreases remote_ids@.len() - i,
    {
        let id = remote_ids[i];
        proof {
            assert(remote_ids@.take(i + 1).drop_last() =~= remote_ids@.take(i as int));
            assert(remote_ids@.take(i + 1) =~= remote_ids@.take(i as int).push(
                remote_ids@[i as int],
            ));
            Seq::<SongId>::lemma_filter_push(remote_ids@.take(i as int), id, pred);
        }
        if !id_set_contains(&seen, id.0) {
            r.push(id);
        }
        i = i + 1;
    }
    proof {
        assert(remote_ids@.take(remote_ids@.len() as int) =~= remote_ids@);
    }
    r
}

/// Compute a synchronization run's work list: parse the remote listing's
/// ids and keep those absent from the local listing, in remote order. A
/// malformed remote id aborts the whole run with its parse error before
/// any diff is computed; an empty work list means the run has nothing to
/// do and is a success.
pub fn add_new_songs_plan(remote: &SongSummaries, local_ids: &Vec<SongId>) -> (r: Result<
    Vec<SongId>,
    DomainError,
>)
    ensures
        r is Ok <==> (forall|k: int|
            0 <= k < remote.list@.len() ==> valid_id_chars(#[trigger] remote.list@[k].id@)),
        r matches Ok(ids) ==> ids@ == diff_ids(parsed_ids_of(remote.list@), local_ids@),
        r matches Err(e) ==> exists|k: int|
            #![auto]
            {
                &&& 0 <= k < remote.list@.len()
                &&& !valid_id_chars(remote.list@[k].id@)
                &&& forall|j: int| 0 <= j < k ==> valid_id_chars(#[trigger] remote.list@[j].id@)
                &&& e == DomainError::FailedToParseSongId { s: remote.list@[k].id }
            },
{
    match parse_summary_ids(remote) {
        Ok(remote_ids) => Ok(new_song_ids(&remote_ids, local_ids)),
        Err(e) => Err(e),
    }
}

/// Law: when every remote id is already present locally, the work list is
/// empty — a run over a covered remote listing schedules no fetch and no
/// save.
pub proof fn lemma_diff_empty_when_covered(remote: Seq<SongId>, local: Seq<SongId>)
    requires
        forall|id: SongId| remote.contains(id) ==> local.contains(id),
    ensures
        diff_ids(remote, local).len() == 0,
    decreases remote.len(),
{
    reveal(Seq::filter);
    if remote.len() > 0 {
        let prefix = remote.drop_last();
        assert forall|id: SongId| prefix.contains(id) implies local.contains(id) by {
            let w = choose|w: int| 0 <= w < prefix.len() && prefix[w] == id;
            assert(remote[w] == id);
            assert(remote.contains(id));
        }
        lemma_diff_empty_when_covered(prefix, local);
        assert(remote[remote.len() - 1] == remote.last());
        assert(remote.contains(remote.last()));
        assert(!not_in_local(local)(remote.last()));
    }
}

/// Law: a second run right after a first one finds nothing new. When the
/// local listing afterwards holds exactly what it held before plus the
/// first run's work list, and the remote listing is unchanged, the second
/// diff is empty, so no duplicate work is scheduled.
pub proof fn lemma_second_run_empty(remote: Seq<SongId>, local: Seq<SongId>, local_after: Seq<
    SongId,
>)
    requires
        forall|id: SongId|
            #[trigger] local_after.contains(id) <==> local.contains(id) || diff_ids(
                remote,
                local,
            ).contains(id),
    ensures
        diff_ids(remote, local_after).len() == 0,
{
    assert forall|id: SongId| remote.contains(id) implies local_after.contains(id) by {
        if !local.contains(id) {
            let w = choose|w: int| 0 <= w < remote.len() && remote[w] == id;
            remote.filter_lemma(not_in_local(local));
            assert(not_in_local(local)(remote[w]));
            assert(diff_ids(remote, local).contains(id));
        }
    }
    lemma_diff_empty_when_covered(remote, local_after);
}

/// Whether every member entry of an album's remote member list carries a
/// valid id string.
pub open spec fn short_ids_valid(l: Seq<SongShort>) -> bool {
    forall|i: int| 0 <= i < l.len() ==> valid_id_chars(#[trigger] l[i].id@)
}

/// The ids an album's remote member list denotes, assuming each entry's id
/// string is valid.
pub open spec fn parsed_short_ids_of(l: Seq<SongShort>) -> Seq<SongId> {
    Seq::new(l.len(), |i: int| SongId(digits_to_nat(l[i].id@) as u32))
}

/// Parse every member id of an album's remote member list; the first
/// malformed entry aborts with its id-parse error.
fn parse_short_ids(list: &Vec<SongShort>) -> (r: Result<Vec<SongId>, DomainError>)
    ensures
        r is Ok <==> short_ids_valid(list@),
        r matches Ok(ids) ==> ids@ == parsed_short_ids_of(list@),
        r matches Err(e) ==> exists|k: int|
            #![auto]
            {
                &&& 0 <= k < list@.len()
                &&& !valid_id_chars(list@[k].id@)
                &&& forall|j: int| 0 <= j < k ==> valid_id_chars(#[trigger] list@[j].id@)
                &&& e == DomainError::FailedToParseSongId { s: list@[k].id }
            },
{
    let n = list.len();
    let mut ids: Vec<SongId> = Vec::new();
    let mut i: usize = 0;
    while i < n
        invariant
            n == list@.len(),
            0 <= i <= n,
            ids@.len() == i,
            forall|k: int| 0 <= k < i ==> valid_id_chars(#[trigger] list@[k].id@),
            forall|k: int|
                0 <= k < i ==> ids@[k] == SongId(digits_to_nat(#[trigger] list@[k].id@) as u32),
        decreases n - i,
    {
        let s = list[i].id.clone();
        match SongId::try_new(s) {
            Ok(id) => {
                ids.push(id);
            },
            Err(e) => {
                return Err(e);
            },
        }
        i = i + 1;
    }
    proof {
        assert(ids@ =~= parsed_short_ids_of(list@));
    }
    Ok(ids)
}

/// Where one in-flight materialization of a remote song stands: which
/// answer from the outside world it is waiting for, and what it has
/// resolved so far.
#[derive(Debug)]
pub enum FetchState {
    /// Waiting for the remote song detail.
    FetchingSong { song_id: SongId },
    /// Waiting for the local store's album lookup.
    LookingUpAlbum { song_id: SongId, song: msr::Song, album_id: AlbumId },
    /// The album was absent locally; waiting for its remote record.
    FetchingAlbum { song_id: SongId, song: msr::Song, album_id: AlbumId },
    /// Waiting for the remote album detail with the member list.
    FetchingAlbumDetail { song_id: SongId, song: msr::Song, album_id: AlbumId, msr_album: msr::Album },
    /// Waiting for the album's cover image bytes.
    FetchingCoverImage {
        song_id: SongId,
        song: msr::Song,
        album_id: AlbumId,
        msr_album: msr::Album,
        song_list: Vec<SongId>,
    },
    /// Waiting for the store to persist the freshly built album.
    SavingAlbum { song_id: SongId, song: msr::Song, album_id: AlbumId, song_list: Vec<SongId> },
    /// Waiting for the song's raw audio bytes.
    FetchingAudio { song_id: SongId, song: msr::Song, album_id: AlbumId, song_list: Vec<SongId> },
    /// The materialization is complete.
    Finished,
}

/// What the adapter must do next on behalf of one materialization. The
/// id strings carried by the fetch actions are in the remote catalog's
/// textual forms.
#[derive(Debug)]
pub enum FetchAction {
    /// Fetch the remote song detail; the id is in the six-digit form.
    FetchSong { song_id: String },
    /// Look the album up in the local store.
    GetAlbum { album_id: AlbumId },
    /// Fetch the remote album record; the id is the raw remote string.
    FetchAlbum { album_id: String },
    /// Fetch the remote album detail; the id is in the four-digit form.
    FetchAlbumDetail { album_id: String },
    /// Fetch the album's cover image from its URL.
    FetchCoverImage { cover_url: String },
    /// Persist the freshly built album in the local store.
    SaveAlbum { album: Album },
    /// Fetch the song's raw audio from its URL.
    FetchRawSong { source_url: String },
    /// The validated song is ready; the caller persists it.
    Done { song: Song },
}

/// The outside world's answer to the previous action.
#[derive(Debug)]
pub enum FetchEvent {
    SongFetched { song: msr::Song },
    AlbumFound { album: Option<Album> },
    AlbumFetched { album: msr::Album },
    AlbumDetailFetched { detail: AlbumDetail },
    CoverImageFetched { image: bytes::Bytes },
    AlbumSaved,
    RawSongFetched { raw: bytes::Bytes },
}

/// Which event answers which waiting state: the adapter must feed back
/// exactly the answer to the action it performed.
pub open spec fn state_accepts(state: FetchState, event: FetchEvent) -> bool {
    match (state, event) {
        (FetchState::FetchingSong { .. }, FetchEvent::SongFetched { .. }) => true,
        (FetchState::LookingUpAlbum { .. }, FetchEvent::AlbumFound { .. }) => true,
        (FetchState::FetchingAlbum { .. }, FetchEvent::AlbumFetched { .. }) => true,
        (FetchState::FetchingAlbumDetail { .. }, FetchEvent::AlbumDetailFetched { .. }) => true,
        (FetchState::FetchingCoverImage { .. }, FetchEvent::CoverImageFetched { .. }) => true,
        (FetchState::SavingAlbum { .. }, FetchEvent::AlbumSaved) => true,
        (FetchState::FetchingAudio { .. }, FetchEvent::RawSongFetched { .. }) => true,
        _ => false,
    }
}

/// Begin materializing one remote song: the first action fetches its
/// remote detail under the catalog's six-digit textual id.
pub fn start_fetch(song_id: SongId) -> (r: (FetchState, FetchAction))
    ensures
        r.0 == (FetchState::FetchingSong { song_id }),
        r.1 matches FetchAction::FetchSong { song_id: s } && s@ == zero_pad(
            u32_to_digits(song_id.0 as nat),
            6,
        ),
{
    let padded = zero_padded_decimal(song_id.0, 6);
    (FetchState::FetchingSong { song_id }, FetchAction::FetchSong { song_id: padded })
}

/// Advance one materialization by one answer from the outside world.
///
/// Every transition is fail-fast: a malformed album id, a malformed member
/// id, an unknown origin tag, a member list that does not fit the track
/// range, or a song absent from its own album's member list aborts the
/// materialization with the corresponding domain error. Otherwise the next
/// waiting state and the next action are returned; the action `Done`
/// carries the validated song, whose track number is derived from the
/// resolved member list.
pub fn fetch_step(state: FetchState, event: FetchEvent) -> (r: Result<
    (FetchState, FetchAction),
    DomainError,
>)
    requires
        state_accepts(state, event),
    ensures
        state matches FetchState::FetchingSong { song_id } ==> (event matches FetchEvent::SongFetched {
            song,
        } ==> {
            &&& !valid_id_chars(song.belong_album_id@) ==> r == Err::<
                (FetchState, FetchAction),
                DomainError,
            >(DomainError::FailedToParseAlbumId { s: song.belong_album_id })
            &&& valid_id_chars(song.belong_album_id@) ==> r == Ok::<
                (FetchState, FetchAction),
                DomainError,
            >(
                (
                    FetchState::LookingUpAlbum {
                        song_id,
                        song,
                        album_id: AlbumId(digits_to_nat(song.belong_album_id@) as u32),
                    },
                    FetchAction::GetAlbum {
                        album_id: AlbumId(digits_to_nat(song.belong_album_id@) as u32),
                    },
                ),
            )
        }),
        state matches FetchState::LookingUpAlbum { song_id, song, album_id } ==> (event matches FetchEvent::AlbumFound {
            album: Some(al),
        } ==> r == Ok::<(FetchState, FetchAction), DomainError>(
            (
                FetchState::FetchingAudio { song_id, song, album_id, song_list: al.song_list },
                FetchAction::FetchRawSong { source_url: song.source_url },
            ),
        )),
        state matches FetchState::LookingUpAlbum { song_id, song, album_id } ==> (event matches FetchEvent::AlbumFound {
            album: None,
        } ==> r == Ok::<(FetchState, FetchAction), DomainError>(
            (
                FetchState::FetchingAlbum { song_id, song, album_id },
                FetchAction::FetchAlbum { album_id: song.belong_album_id },
            ),
        )),
        state matches FetchState::FetchingAlbum { song_id, song, album_id } ==> (event matches FetchEvent::AlbumFetched {
            album,
        } ==> {
            &&& r is Ok
            &&& (r matches Ok((s2, a)) ==> {
                &&& s2 == (FetchState::FetchingAlbumDetail {
                    song_id,
                    song,
                    album_id,
                    msr_album: album,
                })
                &&& (a matches FetchAction::FetchAlbumDetail { album_id: s } && s@ == zero_pad(
                    u32_to_digits(album_id.0 as nat),
                    4,
                ))
            })
        }),
        state matches FetchState::FetchingAlbumDetail { song_id, song, album_id, msr_album }
            ==> (event matches FetchEvent::AlbumDetailFetched { detail } ==> {
            &&& short_ids_valid(detail.song_list@) ==> {
                &&& r is Ok
                &&& (r matches Ok((s2, a)) ==> {
                    &&& (s2 matches FetchState::FetchingCoverImage {
                        song_id: sid2,
                        song: sg2,
                        album_id: aid2,
                        msr_album: m2,
                        song_list,
                    } && sid2 == song_id && sg2 == song && aid2 == album_id && m2 == msr_album
                        && song_list@ == parsed_short_ids_of(detail.song_list@))
                    &&& a == (FetchAction::FetchCoverImage { cover_url: msr_album.cover_url })
                })
            }
            &&& !short_ids_valid(detail.song_list@) ==> ({
                &&& r is Err
                &&& (r matches Err(e) ==> exists|k: int|
                    #![auto]
                    {
                        &&& 0 <= k < detail.song_list@.len()
                        &&& !valid_id_chars(detail.song_list@[k].id@)
                        &&& forall|j: int|
                            0 <= j < k ==> valid_id_chars(#[trigger] detail.song_list@[j].id@)
                        &&& e == DomainError::FailedToParseSongId { s: detail.song_list@[k].id }
                    })
            })
        }),
        state matches FetchState::FetchingCoverImage { song_id, song, album_id, msr_album, song_list }
            ==> (event matches FetchEvent::CoverImageFetched { image } ==> {
            &&& msr_album.belong@ != "arknights"@ ==> r == Err::<
                (FetchState, FetchAction),
                DomainError,
            >(DomainError::FailedToParseOriginGame { s: msr_album.belong })
            &&& msr_album.belong@ == "arknights"@ && song_list@.len() > 255 ==> r == Err::<
                (FetchState, FetchAction),
                DomainError,
            >(DomainError::FailedToCreateAlbum { id: album_id })
            &&& msr_album.belong@ == "arknights"@ && song_list@.len() <= 255 ==> {
                &&& r is Ok
                &&& (r matches Ok((s2, a)) ==> {
                    &&& s2 == (FetchState::SavingAlbum { song_id, song, album_id, song_list })
                    &&& (a matches FetchAction::SaveAlbum { album } && album.id == album_id
                        && album.name == msr_album.name && album.total_tracks == song_list@.len()
                        && album.total_disks == 1 && album.intro == msr_album.intro
                        && album.belong == OriginGame::Arknights && album.cover_image == image
                        && album.artists == msr_album.artists && album.song_list@ == song_list@)
                })
            }
        }),
        state matches FetchState::SavingAlbum { song_id, song, album_id, song_list }
            ==> (event matches FetchEvent::AlbumSaved ==> r == Ok::<
            (FetchState, FetchAction),
            DomainError,
        >(
            (
                FetchState::FetchingAudio { song_id, song, album_id, song_list },
                FetchAction::FetchRawSong { source_url: song.source_url },
            ),
        )),
        state matches FetchState::FetchingAudio { song_id, song, album_id, song_list }
            ==> (event matches FetchEvent::RawSongFetched { raw } ==> {
            &&& !song_list@.contains(song_id) ==> r == Err::<
                (FetchState, FetchAction),
                DomainError,
            >(DomainError::FailedToGetSongInAlbum { song_id, album_id })
            &&& song_list@.contains(song_id) && first_index_of_id(song_list@, song_id) + 1 > 255
                ==> r == Err::<(FetchState, FetchAction), DomainError>(
                DomainError::FailedToCreateSong { id: song_id },
            )
            &&& song_list@.contains(song_id) && first_index_of_id(song_list@, song_id) + 1 <= 255
                ==> {
                &&& r is Ok
                &&& (r matches Ok((s2, a)) ==> {
                    &&& s2 == FetchState::Finished
                    &&& (a matches FetchAction::Done { song: out } && out.id == song_id
                        && out.name == song.name && out.belong_album_id == album_id
                        && out.track_number == first_index_of_id(song_list@, song_id) + 1
                        && out.disk_number == 1 && out.artists == song.artists && out.source.raw
                        == raw && out.source.format == AudioFormat::Flac && out.source.save_path@
                        == Seq::<char>::empty())
                })
            }
        }),
{
    match (state, event) {
        (FetchState::FetchingSong { song_id }, FetchEvent::SongFetched { song }) => {
            let album_id = match AlbumId::try_new(song.belong_album_id.clone()) {
                Ok(id) => id,
                Err(e) => {
                    return Err(e);
                },
            };
            Ok(
                (
                    FetchState::LookingUpAlbum { song_id, song, album_id },
                    FetchAction::GetAlbum { album_id },
                ),
            )
        },
        (
            FetchState::LookingUpAlbum { song_id, song, album_id },
            FetchEvent::AlbumFound { album },
        ) => {
            match album {
                Some(al) => {
                    let source_url = song.source_url.clone();
                    Ok(
                        (
                            FetchState::FetchingAudio {
                                song_id,
                                song,
                                album_id,
                                song_list: al.song_list,
                            },
                            FetchAction::FetchRawSong { source_url },
                        ),
                    )
                },
                None => {
                    let raw_album_id = song.belong_album_id.clone();
                    Ok(
                        (
                            FetchState::FetchingAlbum { song_id, song, album_id },
                            FetchAction::FetchAlbum { album_id: raw_album_id },
                        ),
                    )
                },
            }
        },
        (
            FetchState::FetchingAlbum { song_id, song, album_id },
            FetchEvent::AlbumFetched { album },
        ) => {
            let padded = zero_padded_decimal(album_id.0, 4);
            Ok(
                (
                    FetchState::FetchingAlbumDetail { song_id, song, album_id, msr_album: album },
                    FetchAction::FetchAlbumDetail { album_id: padded },
                ),
            )
        },
        (
            FetchState::FetchingAlbumDetail { song_id, song, album_id, msr_album },
            FetchEvent::AlbumDetailFetched { detail },
        ) => {
            let song_list = match parse_short_ids(&detail.song_list) {
                Ok(ids) => ids,
                Err(e) => {
                    return Err(e);
                },
            };
            let cover_url = msr_album.cover_url.clone();
            Ok(
                (
                    FetchState::FetchingCoverImage {
                        song_id,
                        song,
                        album_id,
                        msr_album,
                        song_list,
                    },
                    FetchAction::FetchCoverImage { cover_url },
                ),
            )
        },
        (
            FetchState::FetchingCoverImage { song_id, song, album_id, msr_album, song_list },
            FetchEvent::CoverImageFetched { image },
        ) => {
            let origin = match OriginGame::try_new(msr_album.belong) {
                Ok(o) => o,
                Err(e) => {
                    return Err(e);
                },
            };
            let album = match Album::try_new(
                album_id,
                msr_album.name,
                msr_album.intro,
                origin,
                image,
                msr_album.artists,
                song_list.clone(),
            ) {
                Ok(al) => al,
                Err(e) => {
                    return Err(e);
                },
            };
            Ok(
                (
                    FetchState::SavingAlbum { song_id, song, album_id, song_list },
                    FetchAction::SaveAlbum { album },
                ),
            )
        },
        (FetchState::SavingAlbum { song_id, song, album_id, song_list }, FetchEvent::AlbumSaved) => {
            let source_url = song.source_url.clone();
            Ok(
                (
                    FetchState::FetchingAudio { song_id, song, album_id, song_list },
                    FetchAction::FetchRawSong { source_url },
                ),
            )
        },
        (
            FetchState::FetchingAudio { song_id, song, album_id, song_list },
            FetchEvent::RawSongFetched { raw },
        ) => {
            let source = match AudioRawData::try_new(raw) {
                Ok(s) => s,
                Err(e) => {
                    return Err(e);
                },
            };
            let out = match Song::try_new(
                song_id,
                song.name,
                album_id,
                song_list.as_slice(),
                source,
                song.artists,
            ) {
                Ok(s) => s,
                Err(e) => {
                    return Err(e);
                },
            };
            Ok((FetchState::Finished, FetchAction::Done { song: out }))
        },
        _ => unreached(),
    }
}

} // verus!
