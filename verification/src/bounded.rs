//! The bounded reader: reads a byte source into a buffer while enforcing a
//! maximum byte count, so that an oversized or unbounded source can neither
//! exhaust memory nor be partially delivered as a success.

use crate::errors::ReadError;
use std::io::Read;
use vstd::prelude::*;

verus! {

/// Relies on `std::io::Read::take` chained with `std::io::Read::read_to_end`:
/// reads the source until its end or until `cap` bytes have been read,
/// whichever comes first, appends every byte read to `buf`, and returns the
/// count of bytes read; on a read fault returns the error, with the bytes
/// read so far appended.
#[verifier::external_body]
fn read_at_most<R: std::io::Read>(rdr: R, buf: &mut Vec<u8>, cap: u64) -> (r: Result<
    usize,
    std::io::Error,
>)
    ensures
        r matches Ok(n) ==> final(buf)@.len() == old(buf)@.len() + n && n as u64 <= cap,
        r is Err ==> final(buf)@.len() <= old(buf)@.len() + cap,
{
    let mut taken = rdr.take(cap);
    taken.read_to_end(buf)
}

/// Classifies a completed bounded read against the `limit`-byte ceiling: a
/// read fault is the `Io` failure carrying that fault's error, a delivery of
/// `len` bytes within the ceiling is success, and one over it is the distinct
/// `SizeLimitExceeded` failure.
pub fn classify_read(read: Result<usize, std::io::Error>, len: u64, limit: u64) -> (r: Result<
    (),
    ReadError,
>)
    ensures
        read matches Err(e) ==> r == Err::<(), ReadError>(ReadError::Io(e)),
        read is Ok && len <= limit ==> r is Ok,
        read is Ok && len > limit ==> r matches Err(ReadError::SizeLimitExceeded),
{
    match read {
        Err(e) => Err(ReadError::Io(e)),
        Ok(_) => {
            if len > limit {
                Err(ReadError::SizeLimitExceeded)
            } else {
                Ok(())
            }
        },
    }
}

/// Reads `rdr` into `buf` under the `limit`-byte ceiling.
///
/// Succeeds, leaving the source's bytes in `buf`, exactly when the source
/// delivers at most `limit` bytes; a longer source gives `SizeLimitExceeded`,
/// and a read fault gives the distinct `Io` failure carrying it — the
/// classification is `classify_read` of the read's own result.  Never more
/// than `limit + 1` bytes of the source are materialized, so an unbounded
/// source cannot exhaust memory.  Whatever `buf` held before is discarded.
pub fn rdr2buf<R: std::io::Read>(rdr: R, buf: &mut Vec<u8>, limit: u64) -> (r: Result<
    (),
    ReadError,
>)
    requires
        limit < u64::MAX,
    ensures
        r is Ok ==> final(buf)@.len() <= limit,
        r matches Err(ReadError::SizeLimitExceeded) ==> final(buf)@.len() > limit,
        final(buf)@.len() <= limit + 1,
{
    buf.clear();
    let read = read_at_most(rdr, buf, limit + 1);
    let len = buf.len() as u64;
    classify_read(read, len, limit)
}

} // verus!
