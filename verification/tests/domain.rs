use bytes::Bytes;
use msr::errors::{DomainError, Error, InfraError};
use msr::ids::{AlbumId, SongId};
use msr::song::{Album, AudioFormat, AudioRawData, OriginGame, Song};

fn audio() -> AudioRawData {
    AudioRawData::try_new(Bytes::new()).unwrap()
}

#[test]
fn song_try_new_derives_track_number_from_position() {
    let list = vec![SongId(7), SongId(3), SongId(9)];
    let song = Song::try_new(
        SongId(3),
        "song".to_string(),
        AlbumId(1),
        &list,
        audio(),
        vec!["artist".to_string()],
    )
    .unwrap();
    assert_eq!(song.track_number, 2);
    assert_eq!(song.disk_number, 1);
    assert_eq!(song.id, SongId(3));
    assert_eq!(song.belong_album_id, AlbumId(1));

    let first = Song::try_new(
        SongId(7),
        "first".to_string(),
        AlbumId(1),
        &list,
        audio(),
        vec![],
    )
    .unwrap();
    assert_eq!(first.track_number, 1);
}

#[test]
fn song_try_new_fails_when_id_not_in_album() {
    let list = vec![SongId(1), SongId(2)];
    let r = Song::try_new(
        SongId(5),
        "song".to_string(),
        AlbumId(9),
        &list,
        audio(),
        vec![],
    );
    assert_eq!(
        r,
        Err(DomainError::FailedToGetSongInAlbum { song_id: SongId(5), album_id: AlbumId(9) })
    );
}

#[test]
fn song_try_new_fails_when_track_exceeds_range() {
    let mut list: Vec<SongId> = (0..256).map(SongId).collect();
    list.push(SongId(999));
    let r = Song::try_new(
        SongId(999),
        "song".to_string(),
        AlbumId(1),
        &list,
        audio(),
        vec![],
    );
    assert_eq!(r, Err(DomainError::FailedToCreateSong { id: SongId(999) }));
}

#[test]
fn song_try_reconstruct_keeps_given_numbers() {
    let song = Song::try_reconstruct(
        SongId(4),
        "song".to_string(),
        AlbumId(2),
        11,
        1,
        audio(),
        vec!["artist".to_string()],
    )
    .unwrap();
    assert_eq!(song.track_number, 11);
    assert_eq!(song.disk_number, 1);
}

#[test]
fn album_try_new_sets_totals() {
    let album = Album::try_new(
        AlbumId(1),
        "album".to_string(),
        "intro".to_string(),
        OriginGame::Arknights,
        Bytes::new(),
        vec!["artist".to_string()],
        vec![SongId(1), SongId(2), SongId(3)],
    )
    .unwrap();
    assert_eq!(album.total_tracks, 3);
    assert_eq!(album.total_disks, 1);
    assert_eq!(album.song_list, vec![SongId(1), SongId(2), SongId(3)]);
}

#[test]
fn album_try_new_accepts_empty_song_list() {
    let album = Album::try_new(
        AlbumId(1),
        "album".to_string(),
        "intro".to_string(),
        OriginGame::Arknights,
        Bytes::new(),
        vec![],
        vec![],
    )
    .unwrap();
    assert_eq!(album.total_tracks, 0);
    assert_eq!(album.total_disks, 1);
}

#[test]
fn album_try_new_fails_on_oversized_song_list() {
    let list: Vec<SongId> = (0..256).map(SongId).collect();
    let r = Album::try_new(
        AlbumId(3),
        "album".to_string(),
        "intro".to_string(),
        OriginGame::Arknights,
        Bytes::new(),
        vec![],
        list,
    );
    match r {
        Err(DomainError::FailedToCreateAlbum { id }) => assert_eq!(id, AlbumId(3)),
        other => panic!("expected album creation failure, got {:?}", other),
    }
}

#[test]
fn origin_game_parses_its_tag_case_sensitively() {
    assert_eq!(OriginGame::try_new("arknights".to_string()), Ok(OriginGame::Arknights));
    assert_eq!(
        OriginGame::try_new("Arknights".to_string()),
        Err(DomainError::FailedToParseOriginGame { s: "Arknights".to_string() })
    );
    assert_eq!(
        OriginGame::try_new("other".to_string()),
        Err(DomainError::FailedToParseOriginGame { s: "other".to_string() })
    );
}

#[test]
fn audio_raw_data_defaults_and_reconstructs() {
    let fresh = AudioRawData::try_new(Bytes::from(vec![1u8, 2, 3])).unwrap();
    assert_eq!(fresh.format, AudioFormat::Flac);
    assert_eq!(fresh.save_path, "".to_string());
    assert_eq!(fresh.raw, Bytes::from(vec![1u8, 2, 3]));

    let back = AudioRawData::reconstruct(Bytes::new(), AudioFormat::Mp3, "a/b.mp3".to_string());
    assert_eq!(back.format, AudioFormat::Mp3);
    assert_eq!(back.save_path, "a/b.mp3".to_string());
}

#[test]
fn audio_format_names_round_trip() {
    for f in [AudioFormat::Flac, AudioFormat::Mp3, AudioFormat::Wav] {
        assert_eq!(AudioFormat::try_from_name(&f.name()), Some(f));
    }
    assert_eq!(AudioFormat::try_from_name(&"flac".to_string()), None);
}

#[test]
fn cloning_keeps_the_audio_payload() {
    let data = AudioRawData::try_new(Bytes::from(vec![9u8, 8, 7])).unwrap();
    let copy = data.clone();
    assert_eq!(copy, data);
    assert_eq!(copy.raw, Bytes::from(vec![9u8, 8, 7]));
}

#[test]
fn errors_wrap_into_the_top_level_error() {
    let d = DomainError::FailedToParseSongId { s: "x".to_string() };
    assert_eq!(Error::from(d.clone()), Error::Domain { source: d });
    let i = InfraError::SongNotFound { id: SongId(1) };
    assert_eq!(Error::from(i.clone()), Error::Infra { source: i });
}
