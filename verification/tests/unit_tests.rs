use rawzips2blobs2jsons::bounded::rdr2buf;
use rawzips2blobs2jsons::errors::ReadError;
use rawzips2blobs2jsons::record::{blob2json, build_blob};
use rawzips2blobs2jsons::timestamp::{normalize_datetime, rfc3339_string};

struct FailingReader;

impl std::io::Read for FailingReader {
    fn read(&mut self, _buf: &mut [u8]) -> std::io::Result<usize> {
        Err(std::io::Error::new(std::io::ErrorKind::Other, "broken pipe"))
    }
}

#[test]
fn bounded_reader_delivers_source_within_limit() {
    let src: Vec<u8> = (0u8..100).collect();
    let mut buf: Vec<u8> = Vec::new();
    assert!(rdr2buf(&src[..], &mut buf, 100).is_ok());
    assert_eq!(buf, src);
    // Exactly at the limit still succeeds.
    assert!(rdr2buf(&src[..], &mut buf, 100).is_ok());
    assert_eq!(buf, src);
}

#[test]
fn bounded_reader_rejects_source_over_limit() {
    let src: Vec<u8> = (0u8..100).collect();
    let mut buf: Vec<u8> = vec![1, 2, 3];
    let r = rdr2buf(&src[..], &mut buf, 99);
    assert!(matches!(r, Err(ReadError::SizeLimitExceeded)));
    // Never materializes more than limit + 1 bytes.
    assert_eq!(buf.len(), 100);
}

#[test]
fn bounded_reader_distinguishes_io_failure() {
    let mut buf: Vec<u8> = Vec::new();
    let r = rdr2buf(FailingReader, &mut buf, 10);
    match r {
        Err(ReadError::Io(e)) => assert_eq!(e.kind(), std::io::ErrorKind::Other),
        _ => panic!("expected an Io failure"),
    }
}

#[test]
fn bounded_reader_empty_source() {
    let src: Vec<u8> = Vec::new();
    let mut buf: Vec<u8> = vec![9, 9];
    assert!(rdr2buf(&src[..], &mut buf, 0).is_ok());
    assert_eq!(buf.len(), 0);
}

#[test]
fn read_error_message_names_the_limit() {
    let e = ReadError::SizeLimitExceeded;
    assert_eq!(e.message(), "file size exceeds limit");
    let io = ReadError::from(std::io::Error::new(std::io::ErrorKind::Other, "oops"));
    assert!(io.message().contains("oops"));
}

#[test]
fn valid_datetime_is_kept() {
    let ts = normalize_datetime(2024, 2, 29, 23, 59, 59);
    assert_eq!(
        (ts.year, ts.month, ts.day, ts.hour, ts.minute, ts.second),
        (2024, 2, 29, 23, 59, 59)
    );
    assert_eq!(rfc3339_string(&ts), "2024-02-29T23:59:59+00:00");
}

#[test]
fn malformed_date_falls_back_to_default() {
    // February 30th does not exist; the date falls back, the time is kept.
    let ts = normalize_datetime(2023, 2, 30, 10, 20, 30);
    assert_eq!((ts.year, ts.month, ts.day), (1970, 1, 1));
    assert_eq!((ts.hour, ts.minute, ts.second), (10, 20, 30));
    // 2023 is not a leap year, while 2024 is.
    let kept = normalize_datetime(2024, 2, 29, 10, 20, 30);
    assert_eq!((kept.year, kept.month, kept.day), (2024, 2, 29));
}

#[test]
fn malformed_time_falls_back_to_default() {
    let ts = normalize_datetime(2020, 6, 15, 25, 0, 0);
    assert_eq!((ts.year, ts.month, ts.day), (2020, 6, 15));
    assert_eq!((ts.hour, ts.minute, ts.second), (0, 0, 0));
    let ts2 = normalize_datetime(13, 13, 13, 13, 61, 13);
    assert_eq!((ts2.year, ts2.month, ts2.day), (1970, 1, 1));
    assert_eq!((ts2.hour, ts2.minute, ts2.second), (0, 0, 0));
    assert_eq!(rfc3339_string(&ts2), "1970-01-01T00:00:00+00:00");
}

#[test]
fn rendering_matches_chrono_rfc3339() {
    for (y, mo, d, h, mi, s) in [
        (1980u16, 1u8, 1u8, 0u8, 0u8, 0u8),
        (2024, 2, 29, 12, 30, 20),
        (2107, 12, 31, 23, 59, 58),
        (1970, 1, 1, 0, 0, 0),
        (999, 12, 3, 4, 5, 6),
    ] {
        let ts = normalize_datetime(y, mo, d, h, mi, s);
        let date = chrono::NaiveDate::from_ymd_opt(y as i32, mo as u32, d as u32).unwrap();
        let time = chrono::NaiveTime::from_hms_opt(h as u32, mi as u32, s as u32).unwrap();
        let dt: chrono::DateTime<chrono::Utc> = chrono::DateTime::from_naive_utc_and_offset(
            chrono::NaiveDateTime::new(date, time),
            chrono::Utc,
        );
        assert_eq!(rfc3339_string(&ts), dt.to_rfc3339());
    }
}

#[test]
fn fallback_matches_chrono_default_rendering() {
    // chrono's default NaiveDate/NaiveTime is 1970-01-01 midnight; the
    // normalizer's fallback renders identically.
    let ts = normalize_datetime(2023, 0, 1, 99, 99, 99);
    let dt: chrono::DateTime<chrono::Utc> = chrono::DateTime::from_naive_utc_and_offset(
        chrono::NaiveDateTime::new(
            chrono::NaiveDate::default(),
            chrono::NaiveTime::default(),
        ),
        chrono::Utc,
    );
    assert_eq!(rfc3339_string(&ts), dt.to_rfc3339());
}

#[test]
fn blob_json_escapes_every_field() {
    let payload: Vec<u8> = b"bytes".to_vec();
    let blob = build_blob(
        b"na\"me",
        &payload,
        2024,
        5,
        6,
        12,
        30,
        20,
        "zip\\name",
        "text/\u{1}plain",
        "id\nentity",
    );
    let line = blob2json(&blob);
    let v: serde_json::Value = serde_json::from_str(&line).unwrap();
    assert_eq!(v["name"], "na\"me");
    assert_eq!(v["metadata"]["ZipName"], "zip\\name");
    assert_eq!(v["content_type"], "text/\u{1}plain");
    assert_eq!(v["content_encoding"], "id\nentity");
    assert_eq!(v["content_length"], 5);
    assert!(line.contains("\\u0001"));
}

#[test]
fn blob_serialization_matches_serde_json_field_order() {
    let payload: Vec<u8> = b"hello".to_vec();
    let blob = build_blob(
        b"a.txt",
        &payload,
        2024,
        5,
        6,
        12,
        30,
        20,
        "archive.zip",
        "application/octet-stream",
        "identity",
    );
    let line = blob2json(&blob);
    assert_eq!(
        line,
        "{\"name\":\"a.txt\",\"content_type\":\"application/octet-stream\",\
         \"content_encoding\":\"identity\",\"content_transfer_encoding\":\"base64\",\
         \"body\":\"aGVsbG8=\",\"metadata\":{\"ZipName\":\"archive.zip\"},\
         \"content_length\":5,\"last_modified\":\"2024-05-06T12:30:20+00:00\"}"
    );
}
