//! The emitted record: one JSON object per archive entry, carrying the
//! entry's bytes (base64-encoded) and its metadata.  Building a record has no
//! failure mode: the name is decoded lossily and a malformed timestamp falls
//! back to its default upstream.

use crate::json::{dec_chars, json_quoted, push_dec, push_json_quoted};
use crate::timestamp::{normalize_datetime, rfc3339_chars, rfc3339_string, spec_normalize};
use base64::Engine;
use vstd::prelude::*;
use vstd::string::StringExecFns;

verus! {

/// The base64 text that the standard alphabet with `=` padding assigns to
/// `b`: a function of the bytes alone.
pub uninterp spec fn base64_of(b: Seq<u8>) -> Seq<char>;

/// Relies on base64's `Engine::encode` with the `STANDARD` engine: encodes
/// with the standard alphabet and `=` padding, four characters for every
/// three bytes rounded up, a function of the input bytes alone.
#[verifier::external_body]
fn b64_encode(b: &[u8]) -> (r: String)
    ensures
        r@ == base64_of(b@),
        r@.len() == 4 * ((b@.len() + 2) / 3),
{
    base64::engine::general_purpose::STANDARD.encode(b)
}

/// The characters that lossy UTF-8 decoding assigns to `b`: a function of the
/// bytes alone, with U+FFFD in place of invalid sequences.
pub uninterp spec fn utf8_lossy_of(b: Seq<u8>) -> Seq<char>;

/// Relies on `String::from_utf8_lossy`: decodes `b` as UTF-8, replacing
/// invalid sequences with U+FFFD, a function of the input bytes alone.
#[verifier::external_body]
pub(crate) fn utf8_lossy(b: &[u8]) -> (r: String)
    ensures
        r@ == utf8_lossy_of(b@),
{
    String::from_utf8_lossy(b).to_string()
}

/// The metadata object of a record: the name of the source archive.
#[derive(Debug)]
pub struct Metadata {
    pub zip_name: String,
}

/// One emitted record.  `content_length` is the exact byte count of the
/// entry's realized payload (the bytes that `body` encodes), never a declared
/// size taken from the archive.
#[derive(Debug)]
pub struct Blob {
    pub name: String,
    pub content_type: String,
    pub content_encoding: String,
    pub content_transfer_encoding: String,
    pub body: String,
    pub metadata: Metadata,
    pub content_length: u64,
    pub last_modified: String,
}

/// The JSON object text for one record, field by field, in this fixed order.
pub open spec fn json_record(
    name: Seq<char>,
    content_type: Seq<char>,
    content_encoding: Seq<char>,
    content_transfer_encoding: Seq<char>,
    body: Seq<char>,
    zip_name: Seq<char>,
    content_length: nat,
    last_modified: Seq<char>,
) -> Seq<char> {
    "{\"name\":"@ + json_quoted(name) + ",\"content_type\":"@ + json_quoted(content_type)
        + ",\"content_encoding\":"@ + json_quoted(content_encoding)
        + ",\"content_transfer_encoding\":"@ + json_quoted(content_transfer_encoding)
        + ",\"body\":"@ + json_quoted(body) + ",\"metadata\":{\"ZipName\":"@ + json_quoted(zip_name)
        + "},\"content_length\":"@ + dec_chars(content_length) + ",\"last_modified\":"@
        + json_quoted(last_modified) + "}"@
}

/// The JSON object text for `b`.
pub open spec fn json_line_chars(b: Blob) -> Seq<char> {
    json_record(
        b.name@,
        b.content_type@,
        b.content_encoding@,
        b.content_transfer_encoding@,
        b.body@,
        b.metadata.zip_name@,
        b.content_length as nat,
        b.last_modified@,
    )
}

/// Serializes `b` as one JSON object, exactly `json_line_chars` (no line
/// terminator).
pub fn blob2json(b: &Blob) -> (r: String)
    ensures
        r@ == json_line_chars(*b),
{
    let mut out = String::new();
    out.append("{\"name\":");
    push_json_quoted(&mut out, b.name.as_str());
    out.append(",\"content_type\":");
    push_json_quoted(&mut out, b.content_type.as_str());
    out.append(",\"content_encoding\":");
    push_json_quoted(&mut out, b.content_encoding.as_str());
    out.append(",\"content_transfer_encoding\":");
    push_json_quoted(&mut out, b.content_transfer_encoding.as_str());
    out.append(",\"body\":");
    push_json_quoted(&mut out, b.body.as_str());
    out.append(",\"metadata\":{\"ZipName\":");
    push_json_quoted(&mut out, b.metadata.zip_name.as_str());
    out.append("},\"content_length\":");
    push_dec(&mut out, b.content_length);
    out.append(",\"last_modified\":");
    push_json_quoted(&mut out, b.last_modified.as_str());
    out.append("}");
    proof {
        assert(out@ =~= json_line_chars(*b));
    }
    out
}

/// Builds the record for one entry from its raw parts and the pipeline-wide
/// defaults: the entry name decoded lossily, the payload encoded as base64,
/// the exact payload byte count, and the entry's normalized timestamp
/// rendered as RFC-3339 UTC text.
pub fn build_blob(
    name_bytes: &[u8],
    payload: &Vec<u8>,
    year: u16,
    month: u8,
    day: u8,
    hour: u8,
    minute: u8,
    second: u8,
    zip_name: &str,
    content_type: &str,
    content_encoding: &str,
) -> (r: Blob)
    ensures
        r.name@ == utf8_lossy_of(name_bytes@),
        r.content_type@ == content_type@,
        r.content_encoding@ == content_encoding@,
        r.content_transfer_encoding@ == "base64"@,
        r.body@ == base64_of(payload@),
        r.metadata.zip_name@ == zip_name@,
        r.content_length == payload@.len(),
        r.last_modified@ == rfc3339_chars(spec_normalize(year, month, day, hour, minute, second)),
{
    let ts = normalize_datetime(year, month, day, hour, minute, second);
    Blob {
        name: utf8_lossy(name_bytes),
        content_type: String::from_str(content_type),
        content_encoding: String::from_str(content_encoding),
        content_transfer_encoding: String::from_str("base64"),
        body: b64_encode(payload.as_slice()),
        metadata: Metadata { zip_name: String::from_str(zip_name) },
        content_length: payload.len() as u64,
        last_modified: rfc3339_string(&ts),
    }
}

} // verus!
