//! The boundary to the zip parser.  An in-memory buffer is opened as an
//! archive and its central directory is walked one record at a time; each
//! record comes out as plain values (name bytes, raw payload bytes, time
//! fields).  Everything the parser returns is a function of the archive bytes
//! alone, which the names below capture: `zip_parse_ok` says whether the
//! buffer opens as an archive, `zip_entry_list` what its directory holds, and
//! `zip_truncated` whether walking the directory ends in a parse error after
//! the listed records.

use vstd::prelude::*;

verus! {

#[verifier::external_type_specification]
#[verifier::external_body]
#[verifier::reject_recursive_types(T)]
pub struct ExZipSliceArchive<T>(rawzip::ZipSliceArchive<T>);

#[verifier::external_type_specification]
#[verifier::external_body]
pub struct ExZipSliceEntries<'a>(rawzip::ZipSliceEntries<'a>);

#[verifier::external_type_specification]
#[verifier::external_body]
pub struct ExZipFileHeaderRecord<'a>(rawzip::ZipFileHeaderRecord<'a>);

#[verifier::external_type_specification]
#[verifier::external_body]
pub struct ExRawzipError(rawzip::Error);

/// One archive entry as plain values: its name bytes, its raw (possibly
/// compressed) bytes (`None` where the entry could not be located), its
/// compression method identifier, and its last-modified time fields as the
/// archive carries them.
pub struct RawEntry {
    pub name: Vec<u8>,
    pub raw: Option<Vec<u8>>,
    pub method: u16,
    pub year: u16,
    pub month: u8,
    pub day: u8,
    pub hour: u8,
    pub minute: u8,
    pub second: u8,
}

/// The mathematical value of one archive entry.
pub ghost struct ZEntry {
    pub name: Seq<u8>,
    pub raw: Option<Seq<u8>>,
    pub method: u16,
    pub year: u16,
    pub month: u8,
    pub day: u8,
    pub hour: u8,
    pub minute: u8,
    pub second: u8,
}

impl View for RawEntry {
    type V = ZEntry;

    open spec fn view(&self) -> ZEntry {
        ZEntry {
            name: self.name@,
            raw: match self.raw {
                Some(p) => Some(p@),
                None => None,
            },
            method: self.method,
            year: self.year,
            month: self.month,
            day: self.day,
            hour: self.hour,
            minute: self.minute,
            second: self.second,
        }
    }
}

/// Whether `data` opens as a zip archive (its end of central directory is
/// found and parses).
pub uninterp spec fn zip_parse_ok(data: Seq<u8>) -> bool;

/// The entries that walking the central directory of `data` yields, in the
/// directory's physical order, up to the first record that does not parse.
pub uninterp spec fn zip_entry_list(data: Seq<u8>) -> Seq<ZEntry>;

/// Whether walking the central directory of `data` ends in a parse error
/// after the records of `zip_entry_list` rather than at the directory's end.
pub uninterp spec fn zip_truncated(data: Seq<u8>) -> bool;

/// The archive bytes that an open archive reads from.
pub uninterp spec fn archive_data(a: rawzip::ZipSliceArchive<&[u8]>) -> Seq<u8>;

/// The archive bytes that a directory walk reads from.
pub uninterp spec fn iter_source(it: rawzip::ZipSliceEntries) -> Seq<u8>;

/// The walk's position in its history: the records yielded so far, and one
/// past the list's length once the walk has reported its end or its parse
/// error.  The last bump cannot be dropped: a parse error is reported once
/// and a step after it reports a plain end, so the two reports must be told
/// apart by position.
pub uninterp spec fn iter_index(it: rawzip::ZipSliceEntries) -> int;

/// Relies on rawzip's `ZipArchive::from_slice`: locates and parses the end of
/// central directory record of `data`; whether that succeeds, and everything
/// later read through the returned archive, is a function of the bytes alone.
#[verifier::external_body]
pub(crate) fn zip_open<'a>(data: &'a [u8]) -> (r: Result<
    rawzip::ZipSliceArchive<&'a [u8]>,
    rawzip::Error,
>)
    ensures
        r is Ok <==> zip_parse_ok(data@),
        r matches Ok(a) ==> archive_data(a) == data@,
{
    rawzip::ZipArchive::from_slice(data)
}

/// Relies on rawzip's `ZipSliceArchive::entries`: a walk over the archive's
/// central directory records in the archive's physical order, starting before
/// the first record.
#[verifier::external_body]
pub(crate) fn zip_entries<'a>(a: &'a rawzip::ZipSliceArchive<&'a [u8]>) -> (r:
    rawzip::ZipSliceEntries<'a>)
    ensures
        iter_source(r) == archive_data(*a),
        iter_index(r) == 0,
{
    a.entries()
}

/// What one step of the directory walk yields.
pub enum NextEntry {
    /// The next record, resolved to plain values.
    Entry(RawEntry),
    /// The directory's records are exhausted.
    End,
    /// The next record does not parse; the walk is over.
    Truncated,
}

/// Relies on rawzip's `ZipSliceEntries::next_entry`, the header accessors
/// `file_path`, `last_modified`, `compression_method` and `wayfinder`, and
/// `ZipSliceArchive::get_entry` with `ZipSliceEntry::data`: yields the next
/// central directory record as plain values, with its raw bytes as they stand
/// in the archive (`None` where the entry's local header cannot be located),
/// `End` past the last record, and `Truncated` where a record does not parse
/// (every later step then yields `End`).  Every value returned is a function
/// of the archive bytes alone.
#[verifier::external_body]
pub(crate) fn zip_next<'a>(
    a: &rawzip::ZipSliceArchive<&'a [u8]>,
    it: &mut rawzip::ZipSliceEntries<'a>,
) -> (r: NextEntry)
    requires
        iter_source(*old(it)) == archive_data(*a),
        0 <= iter_index(*old(it)) <= zip_entry_list(iter_source(*old(it))).len() + 1,
    ensures
        iter_source(*final(it)) == iter_source(*old(it)),
        ({
            let entries = zip_entry_list(iter_source(*old(it)));
            let i = iter_index(*old(it));
            if i < entries.len() {
                &&& r matches NextEntry::Entry(e) && e@ == entries[i]
                &&& iter_index(*final(it)) == i + 1
            } else if i == entries.len() {
                &&& if zip_truncated(iter_source(*old(it))) {
                    r is Truncated
                } else {
                    r is End
                }
                &&& iter_index(*final(it)) == i + 1
            } else {
                &&& r is End
                &&& iter_index(*final(it)) == i
            }
        }),
{
    match it.next_entry() {
        Ok(None) => NextEntry::End,
        Err(_) => NextEntry::Truncated,
        Ok(Some(h)) => {
            let lm = h.last_modified();
            let raw = match a.get_entry(h.wayfinder()) { Ok(e) => Some(e.data().to_vec()), Err(_) => None };
            NextEntry::Entry(RawEntry {
                name: h.file_path().as_bytes().to_vec(),
                raw,
                method: h.compression_method().as_u16(),
                year: lm.year(), month: lm.month(), day: lm.day(),
                hour: lm.hour(), minute: lm.minute(), second: lm.second(),
            })
        },
    }
}

} // verus!
