use base64::Engine;
use std::io::Read;
use rawzips2blobs2jsons::bounded::rdr2buf;
use rawzips2blobs2jsons::errors::ReadError;
use rawzips2blobs2jsons::pipeline::{
    buf2zip2blobs2jsons, buf2zip2blobs2jsons2writer, jsons2writer, loaded2zip2blobs2jsons, Options,
};

fn push_u16(out: &mut Vec<u8>, v: u16) {
    out.extend_from_slice(&v.to_le_bytes());
}

fn push_u32(out: &mut Vec<u8>, v: u32) {
    out.extend_from_slice(&v.to_le_bytes());
}

/// DOS-encoded date and time fields for a fixed timestamp 2024-05-06 12:30:20.
fn dos_date_time() -> (u16, u16) {
    let date: u16 = ((2024 - 1980) << 9) | (5 << 5) | 6;
    let time: u16 = (12 << 11) | (30 << 5) | (20 / 2);
    (date, time)
}

/// Builds a zip archive from entries given as (name, method, bytes as stored
/// in the file, uncompressed size, crc of the uncompressed bytes).
fn make_zip_with(entries: &[(&str, u16, &[u8], u32, u32)]) -> Vec<u8> {
    let (date, time) = dos_date_time();
    let mut out: Vec<u8> = Vec::new();
    let mut offsets: Vec<u32> = Vec::new();
    for (name, method, data, usize_, crc) in entries {
        offsets.push(out.len() as u32);
        push_u32(&mut out, 0x04034b50);
        push_u16(&mut out, 20); // version needed
        push_u16(&mut out, 0); // flags
        push_u16(&mut out, *method);
        push_u16(&mut out, time);
        push_u16(&mut out, date);
        push_u32(&mut out, *crc);
        push_u32(&mut out, data.len() as u32); // compressed size
        push_u32(&mut out, *usize_); // uncompressed size
        push_u16(&mut out, name.len() as u16);
        push_u16(&mut out, 0); // extra len
        out.extend_from_slice(name.as_bytes());
        out.extend_from_slice(data);
    }
    let cd_offset = out.len() as u32;
    for (i, (name, method, data, usize_, crc)) in entries.iter().enumerate() {
        push_u32(&mut out, 0x02014b50);
        push_u16(&mut out, 20); // version made by
        push_u16(&mut out, 20); // version needed
        push_u16(&mut out, 0); // flags
        push_u16(&mut out, *method);
        push_u16(&mut out, time);
        push_u16(&mut out, date);
        push_u32(&mut out, *crc);
        push_u32(&mut out, data.len() as u32);
        push_u32(&mut out, *usize_);
        push_u16(&mut out, name.len() as u16);
        push_u16(&mut out, 0); // extra len
        push_u16(&mut out, 0); // comment len
        push_u16(&mut out, 0); // disk number
        push_u16(&mut out, 0); // internal attributes
        push_u32(&mut out, 0); // external attributes
        push_u32(&mut out, offsets[i]);
        out.extend_from_slice(name.as_bytes());
    }
    let cd_size = out.len() as u32 - cd_offset;
    push_u32(&mut out, 0x06054b50);
    push_u16(&mut out, 0); // disk number
    push_u16(&mut out, 0); // central directory disk
    push_u16(&mut out, entries.len() as u16);
    push_u16(&mut out, entries.len() as u16);
    push_u32(&mut out, cd_size);
    push_u32(&mut out, cd_offset);
    push_u16(&mut out, 0); // comment len
    out
}

/// Builds a stored (uncompressed) zip archive holding the given entries.
fn make_zip(entries: &[(&str, &[u8])]) -> Vec<u8> {
    let full: Vec<(&str, u16, &[u8], u32, u32)> = entries
        .iter()
        .map(|(name, data)| (*name, 0u16, *data, data.len() as u32, rawzip::crc32(data)))
        .collect();
    make_zip_with(&full)
}

/// Raw deflate compression of `data`, as a zip deflate entry stores it.
fn deflate_bytes(data: &[u8]) -> Vec<u8> {
    let mut enc = flate2::read::DeflateEncoder::new(data, flate2::Compression::default());
    let mut out: Vec<u8> = Vec::new();
    enc.read_to_end(&mut out).unwrap();
    out
}

fn run_pipeline(zip_name: &str, zipdata: &[u8], max_item: u64, verbose: bool) -> (Vec<String>, Vec<String>) {
    let mut diags: Vec<String> = Vec::new();
    let lines = buf2zip2blobs2jsons(
        zip_name,
        zipdata,
        "application/octet-stream",
        "identity",
        max_item,
        verbose,
        &mut diags,
    );
    (lines, diags)
}

#[test]
fn single_entry_record_fields() {
    let zip = make_zip(&[("a.txt", b"hello")]);
    let (lines, diags) = run_pipeline("archive.zip", &zip, 128 * 1024, true);
    assert_eq!(lines.len(), 1);
    assert_eq!(diags.len(), 0);
    let v: serde_json::Value = serde_json::from_str(&lines[0]).unwrap();
    assert_eq!(v["name"], "a.txt");
    assert_eq!(v["content_type"], "application/octet-stream");
    assert_eq!(v["content_encoding"], "identity");
    assert_eq!(v["content_transfer_encoding"], "base64");
    assert_eq!(v["content_length"], 5);
    assert_eq!(v["metadata"]["ZipName"], "archive.zip");
    let body = v["body"].as_str().unwrap();
    let decoded = base64::engine::general_purpose::STANDARD
        .decode(body)
        .unwrap();
    assert_eq!(decoded, b"hello");
    assert_eq!(v["last_modified"], "2024-05-06T12:30:20+00:00");
}

#[test]
fn record_count_matches_qualifying_entries() {
    let zip = make_zip(&[("a", b"xx"), ("b", b"yyy"), ("c", b"zzzz")]);
    let (lines, _) = run_pipeline("z.zip", &zip, 1 << 17, false);
    assert_eq!(lines.len(), 3);
    for (line, expect) in lines.iter().zip([2u64, 3, 4]) {
        let v: serde_json::Value = serde_json::from_str(line).unwrap();
        assert_eq!(v["content_length"].as_u64().unwrap(), expect);
    }
}

#[test]
fn body_round_trips_through_base64() {
    let payload: Vec<u8> = (0u16..=255).map(|b| b as u8).collect();
    let zip = make_zip(&[("bin.dat", &payload)]);
    let (lines, _) = run_pipeline("z.zip", &zip, 1 << 17, false);
    assert_eq!(lines.len(), 1);
    let v: serde_json::Value = serde_json::from_str(&lines[0]).unwrap();
    let decoded = base64::engine::general_purpose::STANDARD
        .decode(v["body"].as_str().unwrap())
        .unwrap();
    assert_eq!(decoded, payload);
}

#[test]
fn running_twice_gives_identical_output() {
    let zip = make_zip(&[("a.txt", b"hello"), ("b.txt", b"world!")]);
    let (lines1, diags1) = run_pipeline("same.zip", &zip, 1 << 17, true);
    let (lines2, diags2) = run_pipeline("same.zip", &zip, 1 << 17, true);
    assert_eq!(lines1, lines2);
    assert_eq!(diags1, diags2);
}

#[test]
fn oversized_entry_is_skipped() {
    let big = vec![7u8; 100];
    let zip = make_zip(&[("small.txt", b"ok"), ("big.bin", &big)]);
    let (lines, diags) = run_pipeline("z.zip", &zip, 10, true);
    assert_eq!(lines.len(), 1);
    let v: serde_json::Value = serde_json::from_str(&lines[0]).unwrap();
    assert_eq!(v["name"], "small.txt");
    assert_eq!(diags.len(), 1);
    assert_eq!(
        diags[0],
        "level:warn\tstatus:item_skipped\treason:size_limit_exceeded\tpath:z.zip\titem:big.bin\tsize:100"
    );
}

#[test]
fn garbage_bytes_give_no_lines_and_a_parse_diag() {
    let garbage = b"this is not a zip archive at all";
    let (lines, diags) = run_pipeline("bad.zip", garbage, 1 << 17, true);
    assert_eq!(lines.len(), 0);
    assert_eq!(diags.len(), 1);
    assert_eq!(
        diags[0],
        "level:warn\tstatus:zip_processing_failed\tpath:bad.zip\treason:archive_parse_failed"
    );
}

#[test]
fn garbage_bytes_silent_without_verbose() {
    let (lines, diags) = run_pipeline("bad.zip", b"not a zip", 1 << 17, false);
    assert_eq!(lines.len(), 0);
    assert_eq!(diags.len(), 0);
}

#[test]
fn oversized_archive_is_skipped_with_diag() {
    let zip = make_zip(&[("a.txt", b"hello")]);
    let mut buf: Vec<u8> = Vec::new();
    let load = rdr2buf(&zip[..], &mut buf, 10);
    assert!(matches!(load, Err(ReadError::SizeLimitExceeded)));
    let options = Options {
        max_zip_size: 10,
        content_type: "application/octet-stream",
        content_encoding: "identity",
        max_item_size: 1 << 17,
        verbose: true,
    };
    let mut diags: Vec<String> = Vec::new();
    let lines = loaded2zip2blobs2jsons("huge.zip", &load, &buf, &options, &mut diags);
    assert_eq!(lines.len(), 0);
    assert_eq!(diags.len(), 1);
    assert_eq!(
        diags[0],
        "level:warn\tstatus:zip_skipped\treason:size_limit_exceeded\tpath:huge.zip"
    );
}

#[test]
fn unreadable_source_is_skipped_with_read_error_diag() {
    let err = std::io::Error::new(std::io::ErrorKind::NotFound, "no such file");
    let load: Result<(), ReadError> = Err(ReadError::Io(err));
    let options = Options {
        max_zip_size: 1 << 20,
        content_type: "application/octet-stream",
        content_encoding: "identity",
        max_item_size: 1 << 17,
        verbose: true,
    };
    let mut diags: Vec<String> = Vec::new();
    let buf: Vec<u8> = Vec::new();
    let lines = loaded2zip2blobs2jsons("missing.zip", &load, &buf, &options, &mut diags);
    assert_eq!(lines.len(), 0);
    assert_eq!(diags.len(), 1);
    assert!(diags[0]
        .starts_with("level:warn\tstatus:zip_skipped\treason:read_error\tpath:missing.zip\terror:"));
    assert!(diags[0].contains("no such file"));
}

#[test]
fn loaded_bytes_go_through_unchanged() {
    let zip = make_zip(&[("a.txt", b"hello")]);
    let mut buf: Vec<u8> = Vec::new();
    let load = rdr2buf(&zip[..], &mut buf, 1 << 20);
    assert!(load.is_ok());
    assert_eq!(buf, zip);
    let options = Options {
        max_zip_size: 1 << 20,
        content_type: "text/plain",
        content_encoding: "identity",
        max_item_size: 1 << 17,
        verbose: false,
    };
    let mut diags: Vec<String> = Vec::new();
    let lines = loaded2zip2blobs2jsons("a.zip", &load, &buf, &options, &mut diags);
    assert_eq!(lines.len(), 1);
    let v: serde_json::Value = serde_json::from_str(&lines[0]).unwrap();
    assert_eq!(v["content_type"], "text/plain");
}

#[test]
fn entry_name_with_quotes_and_controls_is_escaped() {
    let name = "we\"ird\\na\tme";
    let zip = make_zip(&[(name, b"data")]);
    let (lines, _) = run_pipeline("q.zip", &zip, 1 << 17, false);
    assert_eq!(lines.len(), 1);
    let v: serde_json::Value = serde_json::from_str(&lines[0]).unwrap();
    assert_eq!(v["name"].as_str().unwrap(), name);
}

#[test]
fn invalid_utf8_entry_name_is_decoded_lossily() {
    // Build the archive by hand around an invalid UTF-8 name.
    let name_bytes: &[u8] = &[b'a', 0xff, b'b'];
    let data: &[u8] = b"xyz";
    let (date, time) = dos_date_time();
    let mut out: Vec<u8> = Vec::new();
    push_u32(&mut out, 0x04034b50);
    push_u16(&mut out, 20);
    push_u16(&mut out, 0);
    push_u16(&mut out, 0);
    push_u16(&mut out, time);
    push_u16(&mut out, date);
    push_u32(&mut out, rawzip::crc32(data));
    push_u32(&mut out, data.len() as u32);
    push_u32(&mut out, data.len() as u32);
    push_u16(&mut out, name_bytes.len() as u16);
    push_u16(&mut out, 0);
    out.extend_from_slice(name_bytes);
    out.extend_from_slice(data);
    let cd_offset = out.len() as u32;
    push_u32(&mut out, 0x02014b50);
    push_u16(&mut out, 20);
    push_u16(&mut out, 20);
    push_u16(&mut out, 0);
    push_u16(&mut out, 0);
    push_u16(&mut out, time);
    push_u16(&mut out, date);
    push_u32(&mut out, rawzip::crc32(data));
    push_u32(&mut out, data.len() as u32);
    push_u32(&mut out, data.len() as u32);
    push_u16(&mut out, name_bytes.len() as u16);
    push_u16(&mut out, 0);
    push_u16(&mut out, 0);
    push_u16(&mut out, 0);
    push_u16(&mut out, 0);
    push_u32(&mut out, 0);
    push_u32(&mut out, 0);
    out.extend_from_slice(name_bytes);
    let cd_size = out.len() as u32 - cd_offset;
    push_u32(&mut out, 0x06054b50);
    push_u16(&mut out, 0);
    push_u16(&mut out, 0);
    push_u16(&mut out, 1);
    push_u16(&mut out, 1);
    push_u32(&mut out, cd_size);
    push_u32(&mut out, cd_offset);
    push_u16(&mut out, 0);
    let (lines, _) = run_pipeline("l.zip", &out, 1 << 17, false);
    assert_eq!(lines.len(), 1);
    let v: serde_json::Value = serde_json::from_str(&lines[0]).unwrap();
    assert_eq!(v["name"].as_str().unwrap(), "a\u{fffd}b");
}

#[test]
fn writer_receives_lines_with_newlines() {
    let zip = make_zip(&[("a.txt", b"hello")]);
    let (lines, _) = run_pipeline("w.zip", &zip, 1 << 17, false);
    let mut sink: Vec<u8> = Vec::new();
    jsons2writer(&lines, &mut sink).unwrap();
    let text = String::from_utf8(sink).unwrap();
    assert_eq!(text, format!("{}\n", lines[0]));
}

#[test]
fn writer_end_to_end_matches_converter() {
    let zip = make_zip(&[("a.txt", b"hello"), ("b.txt", b"bye")]);
    let mut sink: Vec<u8> = Vec::new();
    let mut diags: Vec<String> = Vec::new();
    buf2zip2blobs2jsons2writer(
        "w.zip",
        &zip,
        "application/octet-stream",
        "identity",
        1 << 17,
        false,
        &mut diags,
        &mut sink,
    )
    .unwrap();
    let text = String::from_utf8(sink).unwrap();
    assert_eq!(text.lines().count(), 2);
    for line in text.lines() {
        let v: serde_json::Value = serde_json::from_str(line).unwrap();
        assert_eq!(v["metadata"]["ZipName"], "w.zip");
    }
}

/// Byte offsets of every central directory file header in `zip`.
fn central_record_offsets(zip: &[u8]) -> Vec<usize> {
    let sig = [0x50u8, 0x4b, 0x01, 0x02];
    (0..zip.len().saturating_sub(3))
        .filter(|&i| zip[i..i + 4] == sig)
        .collect()
}

#[test]
fn unresolvable_entry_is_skipped_not_fatal() {
    let mut zip = make_zip(&[("gone.txt", b"hello"), ("ok.txt", b"world")]);
    // Point the first entry's local header offset past the end of the
    // archive, so resolving its payload fails while enumeration goes on.
    let first = central_record_offsets(&zip)[0];
    zip[first + 42..first + 46].copy_from_slice(&0xffff_0000u32.to_le_bytes());
    let (lines, diags) = run_pipeline("c.zip", &zip, 1 << 17, true);
    assert_eq!(lines.len(), 1);
    let v: serde_json::Value = serde_json::from_str(&lines[0]).unwrap();
    assert_eq!(v["name"], "ok.txt");
    assert_eq!(diags.len(), 1);
    assert_eq!(
        diags[0],
        "level:warn\tstatus:item_skipped\treason:entry_resolution_failed\tpath:c.zip\titem:gone.txt"
    );
}

#[test]
fn truncated_central_directory_keeps_earlier_records() {
    let mut zip = make_zip(&[("a.txt", b"hello"), ("b.txt", b"world")]);
    // Corrupt the second central directory record's signature: the walk
    // yields the first record and then ends in a parse error.
    let second = central_record_offsets(&zip)[1];
    zip[second] = 0;
    let (lines, diags) = run_pipeline("t.zip", &zip, 1 << 17, true);
    assert_eq!(lines.len(), 1);
    let v: serde_json::Value = serde_json::from_str(&lines[0]).unwrap();
    assert_eq!(v["name"], "a.txt");
    assert_eq!(diags.len(), 1);
    assert_eq!(
        diags[0],
        "level:warn\tstatus:zip_processing_failed\tpath:t.zip\treason:truncated_central_directory"
    );
}

#[test]
fn deflated_entry_is_decompressed() {
    let content: Vec<u8> = std::iter::repeat(b"zip content! ")
        .take(20)
        .flatten()
        .copied()
        .collect();
    let packed = deflate_bytes(&content);
    assert!(packed.len() < content.len());
    let zip = make_zip_with(&[(
        "text.txt",
        8,
        &packed,
        content.len() as u32,
        rawzip::crc32(&content),
    )]);
    let (lines, diags) = run_pipeline("d.zip", &zip, 1 << 17, true);
    assert_eq!(diags.len(), 0);
    assert_eq!(lines.len(), 1);
    let v: serde_json::Value = serde_json::from_str(&lines[0]).unwrap();
    assert_eq!(v["content_length"].as_u64().unwrap(), content.len() as u64);
    let decoded = base64::engine::general_purpose::STANDARD
        .decode(v["body"].as_str().unwrap())
        .unwrap();
    assert_eq!(decoded, content);
}

#[test]
fn deflate_expansion_past_ceiling_is_skipped() {
    // A small compressed stream that expands far past the ceiling: at most
    // one byte over the ceiling is ever materialized, and the entry is
    // skipped with the realized count in the diagnostic.
    let content = vec![0u8; 10000];
    let packed = deflate_bytes(&content);
    let zip = make_zip_with(&[(
        "bomb.bin",
        8,
        &packed,
        content.len() as u32,
        rawzip::crc32(&content),
    )]);
    let (lines, diags) = run_pipeline("b.zip", &zip, 10, true);
    assert_eq!(lines.len(), 0);
    assert_eq!(diags.len(), 1);
    assert_eq!(
        diags[0],
        "level:warn\tstatus:item_skipped\treason:size_limit_exceeded\tpath:b.zip\titem:bomb.bin\tsize:11"
    );
}

#[test]
fn corrupt_deflate_entry_is_skipped() {
    let garbage: &[u8] = &[0xde, 0xad, 0xbe, 0xef, 0x01, 0x02, 0x03];
    let zip = make_zip_with(&[("bad.bin", 8, garbage, 100, 0)]);
    let (lines, diags) = run_pipeline("c.zip", &zip, 1 << 17, true);
    assert_eq!(lines.len(), 0);
    assert_eq!(diags.len(), 1);
    assert_eq!(
        diags[0],
        "level:warn\tstatus:item_skipped\treason:entry_resolution_failed\tpath:c.zip\titem:bad.bin"
    );
}

#[test]
fn unsupported_method_entry_is_skipped() {
    let data: &[u8] = b"whatever";
    let zip = make_zip_with(&[("odd.bin", 99, data, data.len() as u32, rawzip::crc32(data))]);
    let (lines, diags) = run_pipeline("u.zip", &zip, 1 << 17, true);
    assert_eq!(lines.len(), 0);
    assert_eq!(diags.len(), 1);
    assert_eq!(
        diags[0],
        "level:warn\tstatus:item_skipped\treason:unsupported_compression_method\tpath:u.zip\titem:odd.bin"
    );
}

#[test]
fn empty_archive_emits_nothing() {
    let zip = make_zip(&[]);
    let (lines, diags) = run_pipeline("empty.zip", &zip, 1 << 17, true);
    assert_eq!(lines.len(), 0);
    assert_eq!(diags.len(), 0);
}

#[test]
fn sibling_archives_are_unaffected_by_a_skipped_one() {
    let good = make_zip(&[("a.txt", b"hello")]);
    let (expected, _) = run_pipeline("good.zip", &good, 1 << 17, false);
    // An oversized archive processed in between changes nothing for siblings.
    let (bad_lines, _) = run_pipeline("bad.zip", b"not a zip", 1 << 17, false);
    assert_eq!(bad_lines.len(), 0);
    let (again, _) = run_pipeline("good.zip", &good, 1 << 17, false);
    assert_eq!(expected, again);
}
