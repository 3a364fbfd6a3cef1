use msr::errors::DomainError;
use msr::ids::{zero_padded_decimal, AlbumId, SongId};

#[test]
fn song_id_parses_decimal_strings() {
    assert_eq!(SongId::try_new("000001".to_string()), Ok(SongId(1)));
    assert_eq!(SongId::try_new("953967".to_string()), Ok(SongId(953967)));
    assert_eq!(SongId::try_new("0".to_string()), Ok(SongId(0)));
    assert_eq!(SongId::try_new("4294967295".to_string()), Ok(SongId(u32::MAX)));
}

#[test]
fn song_id_rejects_non_numeric_strings() {
    assert_eq!(
        SongId::try_new("abc".to_string()),
        Err(DomainError::FailedToParseSongId { s: "abc".to_string() })
    );
    assert_eq!(
        SongId::try_new("".to_string()),
        Err(DomainError::FailedToParseSongId { s: "".to_string() })
    );
    assert_eq!(
        SongId::try_new("12x".to_string()),
        Err(DomainError::FailedToParseSongId { s: "12x".to_string() })
    );
    assert_eq!(
        SongId::try_new("4294967296".to_string()),
        Err(DomainError::FailedToParseSongId { s: "4294967296".to_string() })
    );
    // Only digits are accepted: a sign or surrounding space is rejected.
    assert_eq!(
        SongId::try_new("+5".to_string()),
        Err(DomainError::FailedToParseSongId { s: "+5".to_string() })
    );
    assert_eq!(
        SongId::try_new(" 5".to_string()),
        Err(DomainError::FailedToParseSongId { s: " 5".to_string() })
    );
}

#[test]
fn song_id_round_trips_through_its_string() {
    for v in [0u32, 1, 9, 10, 99, 100, 953967, u32::MAX] {
        let id = SongId::new(v);
        assert_eq!(SongId::try_new(id.to_string()), Ok(id));
    }
}

#[test]
fn album_id_round_trips_and_rejects() {
    let id = AlbumId::new(249);
    assert_eq!(id.to_string(), "249".to_string());
    assert_eq!(AlbumId::try_new(id.to_string()), Ok(id));
    assert_eq!(
        AlbumId::try_new("one".to_string()),
        Err(DomainError::FailedToParseAlbumId { s: "one".to_string() })
    );
}

#[test]
fn zero_padding_matches_the_catalog_forms() {
    assert_eq!(zero_padded_decimal(1, 6), "000001".to_string());
    assert_eq!(zero_padded_decimal(953967, 6), "953967".to_string());
    assert_eq!(zero_padded_decimal(1, 4), "0001".to_string());
    assert_eq!(zero_padded_decimal(12345, 4), "12345".to_string());
    assert_eq!(zero_padded_decimal(0, 4), "0000".to_string());
}
