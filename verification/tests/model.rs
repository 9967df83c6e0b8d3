//! The item model: timestamp decoding and its failure mode.
use camper::item::{DecodeError, QueryItem};

#[test]
fn rfc2822_timestamp_normalizes_to_utc() {
    let decoded = QueryItem::from_raw(
        "Mon, 02 Jan 2006 15:04:05 -0700",
        "Band".to_string(),
        1,
        "Album".to_string(),
    )
    .expect("a valid RFC-2822 date must decode");
    // 2006-01-02 15:04:05 -0700 is 2006-01-02 22:04:05 UTC.
    assert_eq!(decoded.added, 1_136_239_445);
    assert_eq!(decoded.band_name, "Band");
    assert_eq!(decoded.album_id, 1);
    assert_eq!(decoded.album_title, "Album");
}

#[test]
fn rfc2822_equal_instants_decode_equal() {
    let west = QueryItem::from_raw(
        "Mon, 02 Jan 2006 15:04:05 -0700",
        "Band".to_string(),
        1,
        "Album".to_string(),
    )
    .unwrap();
    let utc = QueryItem::from_raw(
        "Mon, 02 Jan 2006 22:04:05 +0000",
        "Band".to_string(),
        1,
        "Album".to_string(),
    )
    .unwrap();
    assert_eq!(west.added, utc.added);
}

#[test]
fn malformed_timestamp_is_a_decode_error() {
    let decoded = QueryItem::from_raw("not-a-date", "Band".to_string(), 1, "Album".to_string());
    assert_eq!(decoded, Err(DecodeError::InvalidTimestamp));
}

#[test]
fn empty_timestamp_is_a_decode_error() {
    let decoded = QueryItem::from_raw("", "Band".to_string(), 1, "Album".to_string());
    assert_eq!(decoded, Err(DecodeError::InvalidTimestamp));
}
