//! Resolving one entry's raw bytes to its payload: the decompressed bytes
//! that the record carries.  A stored entry's payload is its raw bytes; a
//! deflate entry is inflated with at most one byte over the per-entry ceiling
//! materialized, so a small compressed stream cannot expand past the
//! configured bound (the ceiling holds for the realized byte count); any
//! other compression method is unsupported and the entry is skipped.

use vstd::prelude::*;

verus! {

/// The stored-entry method identifier of the archive format.
pub const METHOD_STORE: u16 = 0;

/// The deflate method identifier of the archive format.
pub const METHOD_DEFLATE: u16 = 8;

/// What decoding `data` as a raw deflate stream yields when at most `cap`
/// output bytes are materialized: `None` for a corrupt stream, else the
/// decoded bytes, cut off at `cap`.  A function of `data` and `cap` alone.
pub uninterp spec fn inflate_up_to_of(data: Seq<u8>, cap: u64) -> Option<Seq<u8>>;

/// Relies on flate2's `read::DeflateDecoder` chained with `std::io::Read::
/// take` and `read_to_end`: decodes `data` as a raw deflate stream,
/// materializing at most `cap` bytes of output, and reports a corrupt stream
/// as an error.  The outcome is a function of `data` and `cap` alone.
#[verifier::external_body]
fn inflate_up_to(data: &[u8], cap: u64) -> (r: Result<Vec<u8>, ()>)
    ensures
        r matches Ok(v) ==> inflate_up_to_of(data@, cap) == Some(v@) && v@.len() <= cap,
        r is Err ==> inflate_up_to_of(data@, cap) is None,
{
    let mut out: Vec<u8> = Vec::new();
    let mut rdr = std::io::Read::take(flate2::read::DeflateDecoder::new(data), cap);
    match std::io::Read::read_to_end(&mut rdr, &mut out) {
        Ok(_) => Ok(out),
        Err(_) => Err(()),
    }
}

/// One more byte than the per-entry ceiling, so that crossing the ceiling is
/// observable; at the type's top the ceiling itself, which nothing can cross.
pub open spec fn spec_cap(max_item_size: u64) -> u64 {
    if max_item_size == u64::MAX {
        u64::MAX
    } else {
        (max_item_size + 1) as u64
    }
}

/// The payload that raw entry bytes `raw` under compression method `method`
/// resolve to, with materialization bounded just over `max_item_size`: the
/// bytes themselves for a stored entry, the bounded inflation for a deflate
/// entry, nothing for an unsupported method or a corrupt stream.
pub open spec fn spec_payload(raw: Seq<u8>, method: u16, max_item_size: u64) -> Option<Seq<u8>> {
    if method == METHOD_STORE {
        Some(raw)
    } else if method == METHOD_DEFLATE {
        inflate_up_to_of(raw, spec_cap(max_item_size))
    } else {
        None
    }
}

/// How one entry's raw bytes resolved against the per-entry ceiling.
pub enum PayloadOutcome {
    /// The realized payload, within the ceiling.
    Ready(Vec<u8>),
    /// The realized byte count exceeds the ceiling; the count as far as it
    /// was materialized.
    TooBig(u64),
    /// The entry's compression method is not supported.
    Unsupported,
    /// The entry's stream is corrupt.
    Corrupt,
}

/// Resolves one entry's raw bytes to its payload and holds it against the
/// per-entry ceiling: the exact payload when it fits, its realized byte count
/// when it does not, and the distinct unsupported-method and corrupt-stream
/// outcomes otherwise.
pub fn resolve_payload(raw: Vec<u8>, method: u16, max_item_size: u64) -> (r: PayloadOutcome)
    ensures
        method != METHOD_STORE && method != METHOD_DEFLATE ==> r is Unsupported,
        (method == METHOD_STORE || method == METHOD_DEFLATE) && spec_payload(
            raw@,
            method,
            max_item_size,
        ) is None ==> r is Corrupt,
        spec_payload(raw@, method, max_item_size) matches Some(p) ==> if p.len() > max_item_size {
            r matches PayloadOutcome::TooBig(n) && n == p.len()
        } else {
            r matches PayloadOutcome::Ready(v) && v@ == p
        },
{
    if method == METHOD_STORE {
        if raw.len() as u64 > max_item_size {
            PayloadOutcome::TooBig(raw.len() as u64)
        } else {
            PayloadOutcome::Ready(raw)
        }
    } else if method == METHOD_DEFLATE {
        let cap = if max_item_size == u64::MAX {
            u64::MAX
        } else {
            max_item_size + 1
        };
        match inflate_up_to(raw.as_slice(), cap) {
            Err(_) => PayloadOutcome::Corrupt,
            Ok(v) => {
                if v.len() as u64 > max_item_size {
                    PayloadOutcome::TooBig(v.len() as u64)
                } else {
                    PayloadOutcome::Ready(v)
                }
            },
        }
    } else {
        PayloadOutcome::Unsupported
    }
}

} // verus!
