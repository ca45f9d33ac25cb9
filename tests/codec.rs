use hashicorp_vault::duration::{decode_duration_seconds, encode_duration_seconds, VaultDuration};
use hashicorp_vault::timestamp::{decode_timestamp_epoch, decode_timestamp_rfc3339, MAX_EPOCH_SECS};
use hashicorp_vault::DecodeError;

#[test]
fn days_is_86400_seconds() {
    assert_eq!(VaultDuration::days(1), VaultDuration(86400));
}

#[test]
fn duration_units_scale() {
    assert_eq!(VaultDuration::seconds(7).as_secs(), 7);
    assert_eq!(VaultDuration::minutes(2).as_secs(), 120);
    assert_eq!(VaultDuration::hours(3).as_secs(), 10800);
}

#[test]
fn duration_round_trips_through_wire_form() {
    for s in [0u64, 1, 59, 86400, u64::MAX] {
        let d = VaultDuration::seconds(s);
        assert_eq!(decode_duration_seconds(encode_duration_seconds(d)), d);
    }
}

#[test]
fn epoch_timestamp_in_range() {
    assert_eq!(decode_timestamp_epoch(0).unwrap().0, 0);
    assert_eq!(decode_timestamp_epoch(1496318400).unwrap().0, 1496318400);
    assert_eq!(decode_timestamp_epoch(MAX_EPOCH_SECS).unwrap().0, MAX_EPOCH_SECS as i64);
}

#[test]
fn epoch_timestamp_out_of_range() {
    let e = decode_timestamp_epoch(MAX_EPOCH_SECS + 1).unwrap_err();
    assert_eq!(
        e,
        DecodeError::InvalidTimestamp(
            "Could not parse: `8210266876800` as a unix timestamp".to_string()
        )
    );
    assert!(decode_timestamp_epoch(u64::MAX).is_err());
}

#[test]
fn rfc3339_keeps_negative_offset() {
    let t = decode_timestamp_rfc3339("1996-12-19T16:39:57-08:00").unwrap();
    assert_eq!(t.unix_secs, 851042397);
    assert_eq!(t.nanos, 0);
    assert_eq!(t.offset_secs, -8 * 3600);
}

#[test]
fn rfc3339_keeps_positive_offset_and_fraction() {
    let t = decode_timestamp_rfc3339("2017-06-01T17:30:00.25+05:30").unwrap();
    assert_eq!(t.unix_secs, 1496318400);
    assert_eq!(t.nanos, 250_000_000);
    assert_eq!(t.offset_secs, 5 * 3600 + 30 * 60);
}

#[test]
fn rfc3339_zulu_offset_is_zero() {
    let t = decode_timestamp_rfc3339("2017-06-01T12:00:00Z").unwrap();
    assert_eq!(t.unix_secs, 1496318400);
    assert_eq!(t.offset_secs, 0);
}

#[test]
fn rfc3339_rejects_text_without_offset() {
    match decode_timestamp_rfc3339("2017-06-01T12:00:00") {
        Err(DecodeError::InvalidTimestamp(m)) => {
            assert!(m.starts_with("Could not parse: `2017-06-01T12:00:00` as an RFC 3339 timestamp. Error: `"));
            assert!(m.ends_with('`'));
        }
        other => panic!("unexpected: {:?}", other),
    }
}

#[test]
fn rfc3339_offset_is_kept_not_normalized() {
    let t = decode_timestamp_rfc3339("2017-03-15T12:34:56+02:00").unwrap();
    assert_eq!(t.offset_secs, 7200);
    assert_eq!(t.unix_secs, 1489574096);
}
