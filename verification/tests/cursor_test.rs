use chess_rating::GameService;
use chrono::{TimeZone, Utc};
use uuid::Uuid;

#[test]
fn test_cursor_encoding_decoding() {
    let now = Utc::now();
    let id = Uuid::new_v4();

    let cursor = GameService::encode_cursor(now.timestamp_micros(), id.as_u128());
    let (decoded_micros, decoded_id) = GameService::decode_cursor(&cursor).expect("Decoding failed");
    let decoded_ts = Utc.timestamp_micros(decoded_micros).single().expect("Decoding failed");

    assert_eq!(decoded_ts.timestamp(), now.timestamp());
    assert_eq!(Uuid::from_u128(decoded_id), id);
}

#[test]
fn cursor_text_is_micros_comma_hyphenated_uuid_in_base64() {
    let cursor = GameService::encode_cursor(0, 0x67e5504410b1426f9247bb680e5fe0c8);
    assert_eq!(cursor, "MCw2N2U1NTA0NC0xMGIxLTQyNmYtOTI0Ny1iYjY4MGU1ZmUwYzg");
    let cursor = GameService::encode_cursor(-1_700_000_000_000_000, 1);
    assert_eq!(cursor, "LTE3MDAwMDAwMDAwMDAwMDAsMDAwMDAwMDAtMDAwMC0wMDAwLTAwMDAtMDAwMDAwMDAwMDAx");
}

#[test]
fn cursor_round_trips_at_the_extremes() {
    for (micros, id) in [(0i64, 0u128), (-1, u128::MAX), (1_700_000_000_123_456, 42), (-62_135_596_800_000_000, 7)] {
        let cursor = GameService::encode_cursor(micros, id);
        assert_eq!(GameService::decode_cursor(&cursor), Ok((micros, id)));
    }
}

#[test]
fn decode_accepts_signs_and_uppercase_ids() {
    assert_eq!(
        GameService::decode_cursor("KzQyLDY3RTU1MDQ0LTEwQjEtNDI2Ri05MjQ3LUJCNjgwRTVGRTBDOA"),
        Ok((42, 0x67e5504410b1426f9247bb680e5fe0c8))
    );
}

#[test]
fn decode_reports_each_kind_of_bad_cursor() {
    assert_eq!(GameService::decode_cursor("not base64!"), Err("Invalid base64".to_string()));
    assert_eq!(GameService::decode_cursor("__4"), Err("Invalid utf8".to_string()));
    assert_eq!(GameService::decode_cursor("bm8gY29tbWEgaGVyZQ"), Err("Invalid cursor format".to_string()));
    assert_eq!(
        GameService::decode_cursor("MTJ4LDY3ZTU1MDQ0LTEwYjEtNDI2Zi05MjQ3LWJiNjgwZTVmZTBjOA"),
        Err("Invalid timestamp".to_string())
    );
    assert_eq!(
        GameService::decode_cursor("OTk5OTk5OTk5OTk5OTk5OTk5OTksNjdlNTUwNDQtMTBiMS00MjZmLTkyNDctYmI2ODBlNWZlMGM4"),
        Err("Invalid timestamp".to_string())
    );
    assert_eq!(GameService::decode_cursor("NSxub3QtYS11dWlk"), Err("Invalid UUID".to_string()));
    assert_eq!(
        GameService::decode_cursor("OTIyMzM3MjAzNjg1NDc3NTgwNyw2N2U1NTA0NC0xMGIxLTQyNmYtOTI0Ny1iYjY4MGU1ZmUwYzg"),
        Err("Invalid timestamp value".to_string())
    );
}

#[test]
fn unrepresentable_time_reads_back_as_invalid_timestamp_value() {
    let cursor = GameService::encode_cursor(i64::MIN, 9);
    assert_eq!(GameService::decode_cursor(&cursor), Err("Invalid timestamp value".to_string()));
}

#[test]
fn cursor_times_cover_exactly_chronos_range() {
    let earliest: i64 = -8_334_601_228_800_000_000;
    let latest: i64 = 8_210_266_876_799_999_999;
    assert!(Utc.timestamp_micros(earliest).single().is_some());
    assert!(Utc.timestamp_micros(earliest - 1).single().is_none());
    assert!(Utc.timestamp_micros(latest).single().is_some());
    assert!(Utc.timestamp_micros(latest + 1).single().is_none());
    for micros in [earliest, latest] {
        assert_eq!(GameService::decode_cursor(&GameService::encode_cursor(micros, 5)), Ok((micros, 5)));
    }
    for micros in [earliest - 1, latest + 1] {
        assert_eq!(
            GameService::decode_cursor(&GameService::encode_cursor(micros, 5)),
            Err("Invalid timestamp value".to_string())
        );
    }
}

