//! The pipeline driver: one archive's bytes in, JSON record lines out.  Every
//! failure — an unreadable or oversized source, an archive that does not
//! parse, an entry that cannot be resolved or is over its ceiling — degrades
//! to a skip with an optional diagnostic line, never to a failure of the run.
//! Diagnostics go to an explicit sink (a vector the caller passes in), so the
//! driver itself touches no console.

use crate::errors::{io_error_text, ReadError};
use crate::json::{dec_chars, push_dec};
use crate::payload::{resolve_payload, spec_payload, PayloadOutcome, METHOD_DEFLATE, METHOD_STORE};
use crate::record::{base64_of, blob2json, build_blob, json_record, utf8_lossy, utf8_lossy_of};
use crate::timestamp::{rfc3339_chars, spec_normalize};
use crate::zip::{
    archive_data, iter_index, iter_source, zip_entries, zip_entry_list, zip_next, zip_open,
    zip_parse_ok, zip_truncated, NextEntry, RawEntry, ZEntry,
};
use vstd::prelude::*;
use vstd::string::StringExecFns;

verus! {

/// Process-wide configuration, constructed once at startup and read-only for
/// the run: the two size ceilings, the default content type and encoding of
/// the emitted records, and the verbose flag for diagnostics.
pub struct Options<'a> {
    pub max_zip_size: u64,
    pub content_type: &'a str,
    pub content_encoding: &'a str,
    pub max_item_size: u64,
    pub verbose: bool,
}

/// Whether entry `e` is emitted: its raw bytes were located, they resolve to
/// a payload (stored, or a well-formed deflate stream), and the realized
/// payload byte count is within the per-entry ceiling.
pub open spec fn spec_qualifies(e: ZEntry, max_item_size: u64) -> bool {
    match e.raw {
        Some(raw) => match spec_payload(raw, e.method, max_item_size) {
            Some(p) => p.len() <= max_item_size,
            None => false,
        },
        None => false,
    }
}

/// The JSON line (without terminator) emitted for entry `e` of archive
/// `zip_name`, meaningful when `e` qualifies: its `body` is the base64 text
/// of the realized (decompressed) payload and its `content_length` that
/// payload's exact byte count.
pub open spec fn spec_entry_line(
    e: ZEntry,
    zip_name: Seq<char>,
    content_type: Seq<char>,
    content_encoding: Seq<char>,
    max_item_size: u64,
) -> Seq<char> {
    match e.raw {
        Some(raw) => match spec_payload(raw, e.method, max_item_size) {
            Some(p) => json_record(
                utf8_lossy_of(e.name),
                content_type,
                content_encoding,
                "base64"@,
                base64_of(p),
                zip_name,
                p.len(),
                rfc3339_chars(spec_normalize(e.year, e.month, e.day, e.hour, e.minute, e.second)),
            ),
            None => Seq::empty(),
        },
        None => Seq::empty(),
    }
}

/// The JSON lines emitted for the entries `es`, in order: one line per
/// qualifying entry, none for the others.
pub open spec fn spec_lines(
    es: Seq<ZEntry>,
    zip_name: Seq<char>,
    content_type: Seq<char>,
    content_encoding: Seq<char>,
    max_item_size: u64,
) -> Seq<Seq<char>>
    decreases es.len(),
{
    if es.len() == 0 {
        Seq::empty()
    } else {
        let init = spec_lines(es.drop_last(), zip_name, content_type, content_encoding, max_item_size);
        if spec_qualifies(es.last(), max_item_size) {
            init.push(
                spec_entry_line(es.last(), zip_name, content_type, content_encoding, max_item_size),
            )
        } else {
            init
        }
    }
}

/// The number of qualifying entries among `es`.
pub open spec fn spec_qualifying_count(es: Seq<ZEntry>, max_item_size: u64) -> nat
    decreases es.len(),
{
    if es.len() == 0 {
        0
    } else {
        spec_qualifying_count(es.drop_last(), max_item_size) + if spec_qualifies(
            es.last(),
            max_item_size,
        ) {
            1nat
        } else {
            0nat
        }
    }
}

/// The JSON lines emitted for one archive's bytes: none unless the bytes
/// parse as an archive, else one line per qualifying directory entry.
pub open spec fn spec_archive_lines(
    data: Seq<u8>,
    zip_name: Seq<char>,
    content_type: Seq<char>,
    content_encoding: Seq<char>,
    max_item_size: u64,
) -> Seq<Seq<char>> {
    if zip_parse_ok(data) {
        spec_lines(zip_entry_list(data), zip_name, content_type, content_encoding, max_item_size)
    } else {
        Seq::empty()
    }
}

/// The diagnostic line for an entry skipped because its realized payload
/// byte count `size` exceeds the per-entry ceiling.
pub open spec fn spec_item_skip_diag(zip_name: Seq<char>, name: Seq<u8>, size: nat) -> Seq<char> {
    "level:warn\tstatus:item_skipped\treason:size_limit_exceeded\tpath:"@ + zip_name + "\titem:"@
        + utf8_lossy_of(name) + "\tsize:"@ + dec_chars(size)
}

/// The diagnostic line for an entry skipped because its bytes could not be
/// located or are a corrupt stream.
pub open spec fn spec_item_fail_diag(zip_name: Seq<char>, name: Seq<u8>) -> Seq<char> {
    "level:warn\tstatus:item_skipped\treason:entry_resolution_failed\tpath:"@ + zip_name
        + "\titem:"@ + utf8_lossy_of(name)
}

/// The diagnostic line for an entry skipped because its compression method is
/// not supported.
pub open spec fn spec_item_unsupported_diag(zip_name: Seq<char>, name: Seq<u8>) -> Seq<char> {
    "level:warn\tstatus:item_skipped\treason:unsupported_compression_method\tpath:"@ + zip_name
        + "\titem:"@ + utf8_lossy_of(name)
}

/// The diagnostic line for an archive whose bytes do not parse.
pub open spec fn spec_parse_fail_diag(zip_name: Seq<char>) -> Seq<char> {
    "level:warn\tstatus:zip_processing_failed\tpath:"@ + zip_name
        + "\treason:archive_parse_failed"@
}

/// The diagnostic line for a central directory whose walk ends in a parse
/// error after some records.
pub open spec fn spec_truncated_diag(zip_name: Seq<char>) -> Seq<char> {
    "level:warn\tstatus:zip_processing_failed\tpath:"@ + zip_name
        + "\treason:truncated_central_directory"@
}

/// The diagnostic line for an archive skipped because its source exceeds the
/// archive-size ceiling.
pub open spec fn spec_zip_skip_size_diag(zip_name: Seq<char>) -> Seq<char> {
    "level:warn\tstatus:zip_skipped\treason:size_limit_exceeded\tpath:"@ + zip_name
}

/// The opening of the diagnostic line for an archive skipped because its
/// source could not be read; the reader's own error text follows it.
pub open spec fn spec_zip_skip_read_prefix(zip_name: Seq<char>) -> Seq<char> {
    "level:warn\tstatus:zip_skipped\treason:read_error\tpath:"@ + zip_name + "\terror:"@
}

/// The opening of the diagnostic line for a failure outside any single
/// archive's processing (the filename stream, the output sink); the failure's
/// own error text follows it, after the path where one is at hand.
pub open spec fn spec_unrecoverable_prefix(path: Option<Seq<char>>) -> Seq<char> {
    match path {
        Some(p) => "level:warn\tstatus:unrecoverable_error\tpath:"@ + p + "\treason:"@,
        None => "level:warn\tstatus:unrecoverable_error\treason:"@,
    }
}

/// The per-entry diagnostic lines for the entries `es`, in order: one line
/// per skipped entry, none for emitted ones.
pub open spec fn spec_entry_diags(es: Seq<ZEntry>, zip_name: Seq<char>, max_item_size: u64) -> Seq<
    Seq<char>,
>
    decreases es.len(),
{
    if es.len() == 0 {
        Seq::empty()
    } else {
        let init = spec_entry_diags(es.drop_last(), zip_name, max_item_size);
        let e = es.last();
        match e.raw {
            None => init.push(spec_item_fail_diag(zip_name, e.name)),
            Some(raw) => if e.method != METHOD_STORE && e.method != METHOD_DEFLATE {
                init.push(spec_item_unsupported_diag(zip_name, e.name))
            } else {
                match spec_payload(raw, e.method, max_item_size) {
                    None => init.push(spec_item_fail_diag(zip_name, e.name)),
                    Some(p) => if p.len() > max_item_size {
                        init.push(spec_item_skip_diag(zip_name, e.name, p.len()))
                    } else {
                        init
                    },
                }
            },
        }
    }
}

/// Every diagnostic line that converting one archive's bytes adds: nothing
/// unless verbose; else the parse-failure line for bytes that do not open,
/// or the per-entry lines followed, for a truncated directory, by the
/// truncation line.
pub open spec fn spec_archive_diags(
    data: Seq<u8>,
    zip_name: Seq<char>,
    max_item_size: u64,
    verbose: bool,
) -> Seq<Seq<char>> {
    if !verbose {
        Seq::empty()
    } else if !zip_parse_ok(data) {
        seq![spec_parse_fail_diag(zip_name)]
    } else {
        spec_entry_diags(zip_entry_list(data), zip_name, max_item_size) + if zip_truncated(data) {
            seq![spec_truncated_diag(zip_name)]
        } else {
            Seq::empty()
        }
    }
}

fn item_skip_diag(zip_name: &str, name: &Vec<u8>, size: u64) -> (r: String)
    ensures
        r@ == spec_item_skip_diag(zip_name@, name@, size as nat),
{
    let mut s = String::new();
    s.append("level:warn\tstatus:item_skipped\treason:size_limit_exceeded\tpath:");
    s.append(zip_name);
    s.append("\titem:");
    let lossy = utf8_lossy(name.as_slice());
    s.append(lossy.as_str());
    s.append("\tsize:");
    push_dec(&mut s, size);
    proof {
        assert(s@ =~= spec_item_skip_diag(zip_name@, name@, size as nat));
    }
    s
}

fn item_fail_diag(zip_name: &str, name: &Vec<u8>) -> (r: String)
    ensures
        r@ == spec_item_fail_diag(zip_name@, name@),
{
    let mut s = String::new();
    s.append("level:warn\tstatus:item_skipped\treason:entry_resolution_failed\tpath:");
    s.append(zip_name);
    s.append("\titem:");
    let lossy = utf8_lossy(name.as_slice());
    s.append(lossy.as_str());
    proof {
        assert(s@ =~= spec_item_fail_diag(zip_name@, name@));
    }
    s
}

fn item_unsupported_diag(zip_name: &str, name: &Vec<u8>) -> (r: String)
    ensures
        r@ == spec_item_unsupported_diag(zip_name@, name@),
{
    let mut s = String::new();
    s.append("level:warn\tstatus:item_skipped\treason:unsupported_compression_method\tpath:");
    s.append(zip_name);
    s.append("\titem:");
    let lossy = utf8_lossy(name.as_slice());
    s.append(lossy.as_str());
    proof {
        assert(s@ =~= spec_item_unsupported_diag(zip_name@, name@));
    }
    s
}

fn parse_fail_diag(zip_name: &str) -> (r: String)
    ensures
        r@ == spec_parse_fail_diag(zip_name@),
{
    let mut s = String::new();
    s.append("level:warn\tstatus:zip_processing_failed\tpath:");
    s.append(zip_name);
    s.append("\treason:archive_parse_failed");
    proof {
        assert(s@ =~= spec_parse_fail_diag(zip_name@));
    }
    s
}

fn truncated_diag(zip_name: &str) -> (r: String)
    ensures
        r@ == spec_truncated_diag(zip_name@),
{
    let mut s = String::new();
    s.append("level:warn\tstatus:zip_processing_failed\tpath:");
    s.append(zip_name);
    s.append("\treason:truncated_central_directory");
    proof {
        assert(s@ =~= spec_truncated_diag(zip_name@));
    }
    s
}

fn zip_skip_size_diag(zip_name: &str) -> (r: String)
    ensures
        r@ == spec_zip_skip_size_diag(zip_name@),
{
    let mut s = String::new();
    s.append("level:warn\tstatus:zip_skipped\treason:size_limit_exceeded\tpath:");
    s.append(zip_name);
    proof {
        assert(s@ =~= spec_zip_skip_size_diag(zip_name@));
    }
    s
}

fn zip_skip_read_diag(zip_name: &str, err: &std::io::Error) -> (r: String)
    ensures
        exists|msg: Seq<char>| r@ == spec_zip_skip_read_prefix(zip_name@) + msg,
{
    let mut s = String::new();
    s.append("level:warn\tstatus:zip_skipped\treason:read_error\tpath:");
    s.append(zip_name);
    s.append("\terror:");
    let text = io_error_text(err);
    s.append(text.as_str());
    proof {
        assert(s@ =~= spec_zip_skip_read_prefix(zip_name@) + text@);
    }
    s
}

/// Builds the diagnostic line for a failure outside any single archive's
/// processing: the fixed `unrecoverable_error` opening, the path where one is
/// at hand, then the error's own text.
pub fn unrecoverable_error_diag(path: Option<&str>, err: &std::io::Error) -> (r: String)
    ensures
        path matches Some(p) ==> exists|msg: Seq<char>|
            r@ == spec_unrecoverable_prefix(Some(p@)) + msg,
        path is None ==> exists|msg: Seq<char>|
            r@ == spec_unrecoverable_prefix(None::<Seq<char>>) + msg,
{
    let mut s = String::new();
    match path {
        Some(p) => {
            s.append("level:warn\tstatus:unrecoverable_error\tpath:");
            s.append(p);
            s.append("\treason:");
        },
        None => {
            s.append("level:warn\tstatus:unrecoverable_error\treason:");
        },
    }
    let text = io_error_text(err);
    s.append(text.as_str());
    proof {
        let gpath: Option<Seq<char>> = match path {
            Some(p) => Some(p@),
            None => None,
        };
        assert(s@ =~= spec_unrecoverable_prefix(gpath) + text@);
    }
    s
}

/// Converts one archive's bytes into serialized JSON record lines: opens the
/// buffer as an archive, walks its directory in physical order, resolves each
/// entry's raw bytes to its decompressed payload, skips each entry whose
/// bytes cannot be located or decoded, whose compression method is
/// unsupported, or whose realized payload is over the per-entry ceiling, and
/// builds one record line per remaining entry.  Appends the matching
/// diagnostic lines to `diags` when `verbose`; no failure of the archive or
/// of an entry escapes this function.
pub fn buf2zip2blobs2jsons(
    zip_name: &str,
    zipdata: &[u8],
    content_type: &str,
    content_encoding: &str,
    max_item_size: u64,
    verbose: bool,
    diags: &mut Vec<String>,
) -> (lines: Vec<String>)
    ensures
        lines.deep_view() == spec_archive_lines(
            zipdata@,
            zip_name@,
            content_type@,
            content_encoding@,
            max_item_size,
        ),
        final(diags).deep_view() == old(diags).deep_view() + spec_archive_diags(
            zipdata@,
            zip_name@,
            max_item_size,
            verbose,
        ),
{
    let mut lines: Vec<String> = Vec::new();
    let archive = match zip_open(zipdata) {
        Err(_) => {
            if verbose {
                diags.push(parse_fail_diag(zip_name));
            }
            proof {
                assert(lines.deep_view() =~= spec_archive_lines(
                    zipdata@,
                    zip_name@,
                    content_type@,
                    content_encoding@,
                    max_item_size,
                ));
                assert(diags.deep_view() =~= old(diags).deep_view() + spec_archive_diags(
                    zipdata@,
                    zip_name@,
                    max_item_size,
                    verbose,
                ));
            }
            return lines;
        },
        Ok(a) => a,
    };
    let ghost entries = zip_entry_list(zipdata@);
    let mut it = zip_entries(&archive);
    loop
        invariant_except_break
            0 <= iter_index(it) <= entries.len(),
            lines.deep_view() == spec_lines(
                entries.take(iter_index(it)),
                zip_name@,
                content_type@,
                content_encoding@,
                max_item_size,
            ),
            diags.deep_view() == old(diags).deep_view() + (if verbose {
                spec_entry_diags(entries.take(iter_index(it)), zip_name@, max_item_size)
            } else {
                Seq::<Seq<char>>::empty()
            }),
        invariant
            archive_data(archive) == zipdata@,
            iter_source(it) == zipdata@,
            entries == zip_entry_list(zipdata@),
            zip_parse_ok(zipdata@),
        ensures
            lines.deep_view() == spec_lines(
                entries,
                zip_name@,
                content_type@,
                content_encoding@,
                max_item_size,
            ),
            diags.deep_view() == old(diags).deep_view() + spec_archive_diags(
                zipdata@,
                zip_name@,
                max_item_size,
                verbose,
            ),
        decreases entries.len() - iter_index(it),
    {
        let ghost i = iter_index(it);
        let step = zip_next(&archive, &mut it);
        match step {
            NextEntry::End => {
                proof {
                    assert(i == entries.len());
                    assert(entries.take(i) =~= entries);
                    assert(!zip_truncated(zipdata@));
                    if verbose {
                        assert(diags.deep_view() =~= old(diags).deep_view() + spec_archive_diags(
                            zipdata@,
                            zip_name@,
                            max_item_size,
                            verbose,
                        ));
                    }
                }
                break ;
            },
            NextEntry::Truncated => {
                proof {
                    assert(i == entries.len());
                    assert(entries.take(i) =~= entries);
                    assert(zip_truncated(zipdata@));
                }
                if verbose {
                    let d = truncated_diag(zip_name);
                    let ghost prev = diags.deep_view();
                    diags.push(d);
                    proof {
                        assert(diags.deep_view() =~= prev.push(spec_truncated_diag(zip_name@)));
                        assert(diags.deep_view() =~= old(diags).deep_view() + spec_archive_diags(
                            zipdata@,
                            zip_name@,
                            max_item_size,
                            verbose,
                        ));
                    }
                }
                break ;
            },
            NextEntry::Entry(e) => {
                proof {
                    assert(0 <= i < entries.len());
                    assert(e@ == entries[i]);
                    assert(entries.take(i + 1).drop_last() =~= entries.take(i));
                    assert(entries.take(i + 1).last() == entries[i]);
                }
                let RawEntry { name, raw, method, year, month, day, hour, minute, second } = e;
                proof {
                    assert(entries[i].name == name@);
                    assert(entries[i].method == method);
                }
                match raw {
                    None => {
                        if verbose {
                            let d = item_fail_diag(zip_name, &name);
                            let ghost prev = diags.deep_view();
                            diags.push(d);
                            proof {
                                assert(diags.deep_view() =~= prev.push(
                                    spec_item_fail_diag(zip_name@, name@),
                                ));
                                assert(spec_entry_diags(
                                    entries.take(i + 1),
                                    zip_name@,
                                    max_item_size,
                                ) == spec_entry_diags(entries.take(i), zip_name@, max_item_size)
                                    .push(spec_item_fail_diag(zip_name@, name@)));
                                assert(diags.deep_view() =~= old(diags).deep_view()
                                    + spec_entry_diags(
                                    entries.take(i + 1),
                                    zip_name@,
                                    max_item_size,
                                ));
                            }
                        }
                    },
                    Some(rawv) => {
                        proof {
                            assert(entries[i].raw == Some(rawv@));
                        }
                        match resolve_payload(rawv, method, max_item_size) {
                            PayloadOutcome::Unsupported => {
                                proof {
                                    assert(method != METHOD_STORE && method != METHOD_DEFLATE);
                                }
                                if verbose {
                                    let d = item_unsupported_diag(zip_name, &name);
                                    let ghost prev = diags.deep_view();
                                    diags.push(d);
                                    proof {
                                        assert(diags.deep_view() =~= prev.push(
                                            spec_item_unsupported_diag(zip_name@, name@),
                                        ));
                                        assert(spec_entry_diags(
                                            entries.take(i + 1),
                                            zip_name@,
                                            max_item_size,
                                        ) == spec_entry_diags(
                                            entries.take(i),
                                            zip_name@,
                                            max_item_size,
                                        ).push(spec_item_unsupported_diag(zip_name@, name@)));
                                        assert(diags.deep_view() =~= old(diags).deep_view()
                                            + spec_entry_diags(
                                            entries.take(i + 1),
                                            zip_name@,
                                            max_item_size,
                                        ));
                                    }
                                }
                            },
                            PayloadOutcome::Corrupt => {
                                proof {
                                    assert(method == METHOD_STORE || method == METHOD_DEFLATE);
                                    assert(spec_payload(rawv@, method, max_item_size) is None);
                                }
                                if verbose {
                                    let d = item_fail_diag(zip_name, &name);
                                    let ghost prev = diags.deep_view();
                                    diags.push(d);
                                    proof {
                                        assert(diags.deep_view() =~= prev.push(
                                            spec_item_fail_diag(zip_name@, name@),
                                        ));
                                        assert(spec_entry_diags(
                                            entries.take(i + 1),
                                            zip_name@,
                                            max_item_size,
                                        ) == spec_entry_diags(
                                            entries.take(i),
                                            zip_name@,
                                            max_item_size,
                                        ).push(spec_item_fail_diag(zip_name@, name@)));
                                        assert(diags.deep_view() =~= old(diags).deep_view()
                                            + spec_entry_diags(
                                            entries.take(i + 1),
                                            zip_name@,
                                            max_item_size,
                                        ));
                                    }
                                }
                            },
                            PayloadOutcome::TooBig(n) => {
                                proof {
                                    assert(spec_payload(rawv@, method, max_item_size) matches Some(
                                        p,
                                    ) && p.len() == n && p.len() > max_item_size);
                                }
                                if verbose {
                                    let d = item_skip_diag(zip_name, &name, n);
                                    let ghost prev = diags.deep_view();
                                    diags.push(d);
                                    proof {
                                        assert(diags.deep_view() =~= prev.push(
                                            spec_item_skip_diag(zip_name@, name@, n as nat),
                                        ));
                                        assert(spec_entry_diags(
                                            entries.take(i + 1),
                                            zip_name@,
                                            max_item_size,
                                        ) == spec_entry_diags(
                                            entries.take(i),
                                            zip_name@,
                                            max_item_size,
                                        ).push(spec_item_skip_diag(zip_name@, name@, n as nat)));
                                        assert(diags.deep_view() =~= old(diags).deep_view()
                                            + spec_entry_diags(
                                            entries.take(i + 1),
                                            zip_name@,
                                            max_item_size,
                                        ));
                                    }
                                }
                            },
                            PayloadOutcome::Ready(p) => {
                                let blob = build_blob(
                                    name.as_slice(),
                                    &p,
                                    year,
                                    month,
                                    day,
                                    hour,
                                    minute,
                                    second,
                                    zip_name,
                                    content_type,
                                    content_encoding,
                                );
                                let line = blob2json(&blob);
                                proof {
                                    assert(spec_payload(rawv@, method, max_item_size) == Some(p@));
                                    assert(p@.len() <= max_item_size);
                                    assert(spec_qualifies(entries[i], max_item_size));
                                    assert(line@ == spec_entry_line(
                                        entries[i],
                                        zip_name@,
                                        content_type@,
                                        content_encoding@,
                                        max_item_size,
                                    ));
                                }
                                lines.push(line);
                                proof {
                                    assert(lines.deep_view() =~= spec_lines(
                                        entries.take(i + 1),
                                        zip_name@,
                                        content_type@,
                                        content_encoding@,
                                        max_item_size,
                                    ));
                                }
                            },
                        }
                    },
                }
                proof {
                    assert(lines.deep_view() =~= spec_lines(
                        entries.take(iter_index(it)),
                        zip_name@,
                        content_type@,
                        content_encoding@,
                        max_item_size,
                    ));
                    if verbose {
                        assert(diags.deep_view() =~= old(diags).deep_view() + spec_entry_diags(
                            entries.take(iter_index(it)),
                            zip_name@,
                            max_item_size,
                        ));
                    }
                }
            },
        }
    }
    lines
}

/// Relies on `std::io::Write::write_all`: writes all of `s`'s bytes to `w`,
/// or reports the sink's error.
#[verifier::external_body]
fn write_str<W: std::io::Write>(w: &mut W, s: &str) -> (r: Result<(), std::io::Error>) {
    w.write_all(s.as_bytes())
}

/// The output stream for a sequence of record lines: each line immediately
/// followed by one line terminator, in order, nothing else.
pub open spec fn spec_joined(ls: Seq<Seq<char>>) -> Seq<char>
    decreases ls.len(),
{
    if ls.len() == 0 {
        Seq::empty()
    } else {
        spec_joined(ls.drop_last()) + ls.last() + "\n"@
    }
}

/// Joins record lines into the one output text: each line immediately
/// followed by one newline, in order.
pub fn lines2text(lines: &Vec<String>) -> (t: String)
    ensures
        t@ == spec_joined(lines.deep_view()),
{
    let mut t = String::new();
    let mut idx: usize = 0;
    while idx < lines.len()
        invariant
            0 <= idx <= lines@.len(),
            t@ == spec_joined(lines.deep_view().take(idx as int)),
        decreases lines@.len() - idx,
    {
        let line = &lines[idx];
        t.append(line.as_str());
        t.append("\n");
        proof {
            let dv = lines.deep_view();
            assert(dv.take(idx + 1).drop_last() =~= dv.take(idx as int));
            assert(dv[idx as int] == lines@[idx as int]@);
            assert(dv.take(idx + 1).last() == line@);
            assert(t@ =~= spec_joined(dv.take(idx + 1)));
        }
        idx = idx + 1;
    }
    proof {
        assert(lines.deep_view().take(lines@.len() as int) =~= lines.deep_view());
    }
    t
}

/// Writes the lines' output stream to `wtr`: the bytes handed to the sink are
/// exactly `spec_joined` of the lines — each line immediately followed by one
/// newline, in order — in a single write, so the sink receives all of it or
/// reports its error.  A run with no lines touches the sink not at all.
pub fn jsons2writer<W: std::io::Write>(lines: &Vec<String>, wtr: &mut W) -> (r: Result<
    (),
    std::io::Error,
>)
    ensures
        lines@.len() == 0 ==> r is Ok,
{
    if lines.len() == 0 {
        return Ok(());
    }
    let text = lines2text(lines);
    write_str(wtr, text.as_str())
}

/// Converts one archive's bytes and writes the records' output stream —
/// `spec_joined` of `spec_archive_lines`, each line followed by one newline,
/// in directory order — to `wtr`.  Only the sink can fail this function: an
/// archive or entry that cannot be converted degrades to a skip and a
/// diagnostic, so bytes that do not parse, or an archive with no qualifying
/// entry, write nothing and return `Ok`.
pub fn buf2zip2blobs2jsons2writer<W: std::io::Write>(
    zip_name: &str,
    zipdata: &[u8],
    content_type: &str,
    content_encoding: &str,
    max_item_size: u64,
    verbose: bool,
    diags: &mut Vec<String>,
    wtr: &mut W,
) -> (r: Result<(), std::io::Error>)
    ensures
        final(diags).deep_view() == old(diags).deep_view() + spec_archive_diags(
            zipdata@,
            zip_name@,
            max_item_size,
            verbose,
        ),
        spec_archive_lines(zipdata@, zip_name@, content_type@, content_encoding@, max_item_size).len()
            == 0 ==> r is Ok,
        !zip_parse_ok(zipdata@) ==> r is Ok,
{
    let lines = buf2zip2blobs2jsons(
        zip_name,
        zipdata,
        content_type,
        content_encoding,
        max_item_size,
        verbose,
        diags,
    );
    proof {
        assert(lines@.len() == lines.deep_view().len());
    }
    jsons2writer(&lines, wtr)
}

/// The Loading step's decision for one archive: a load failure skips the
/// whole archive — no lines, one `zip_skipped` diagnostic when verbose, the
/// failure kind named in the diagnostic — while loaded bytes go through the
/// converter unchanged.  No load failure escapes to the caller.
pub fn loaded2zip2blobs2jsons(
    zip_name: &str,
    load: &Result<(), ReadError>,
    buf: &Vec<u8>,
    options: &Options,
    diags: &mut Vec<String>,
) -> (lines: Vec<String>)
    ensures
        load is Ok ==> lines.deep_view() == spec_archive_lines(
            buf@,
            zip_name@,
            options.content_type@,
            options.content_encoding@,
            options.max_item_size,
        ),
        load is Ok ==> final(diags).deep_view() == old(diags).deep_view() + spec_archive_diags(
            buf@,
            zip_name@,
            options.max_item_size,
            options.verbose,
        ),
        load is Err ==> lines@.len() == 0,
        load matches Err(ReadError::SizeLimitExceeded) ==> final(diags).deep_view() == old(
            diags,
        ).deep_view() + (if options.verbose {
            seq![spec_zip_skip_size_diag(zip_name@)]
        } else {
            Seq::<Seq<char>>::empty()
        }),
        (load matches Err(ReadError::Io(_)) && options.verbose) ==> final(diags)@.len() == old(
            diags,
        )@.len() + 1 && final(diags).deep_view().drop_last() == old(diags).deep_view() && (exists|
            msg: Seq<char>,
        |
            final(diags).deep_view().last() == spec_zip_skip_read_prefix(zip_name@) + msg),
        (load matches Err(ReadError::Io(_)) && !options.verbose) ==> final(diags)@ == old(diags)@,
{
    match load {
        Ok(_) => buf2zip2blobs2jsons(
            zip_name,
            buf.as_slice(),
            options.content_type,
            options.content_encoding,
            options.max_item_size,
            options.verbose,
            diags,
        ),
        Err(ReadError::SizeLimitExceeded) => {
            if options.verbose {
                diags.push(zip_skip_size_diag(zip_name));
                proof {
                    assert(diags.deep_view() =~= old(diags).deep_view() + seq![
                        spec_zip_skip_size_diag(zip_name@),
                    ]);
                }
            } else {
                proof {
                    assert(diags.deep_view() =~= old(diags).deep_view()
                        + Seq::<Seq<char>>::empty());
                }
            }
            Vec::new()
        },
        Err(ReadError::Io(e)) => {
            if options.verbose {
                diags.push(zip_skip_read_diag(zip_name, e));
                proof {
                    assert(diags.deep_view().drop_last() =~= old(diags).deep_view());
                }
            }
            Vec::new()
        },
    }
}

/// One emitted line per qualifying entry: the number of lines that the
/// entries `es` produce equals the number of entries whose payload resolved
/// within the per-entry ceiling.
pub proof fn lemma_record_count(
    es: Seq<ZEntry>,
    zip_name: Seq<char>,
    content_type: Seq<char>,
    content_encoding: Seq<char>,
    max_item_size: u64,
)
    ensures
        spec_lines(es, zip_name, content_type, content_encoding, max_item_size).len()
            == spec_qualifying_count(es, max_item_size),
    decreases es.len(),
{
    if es.len() > 0 {
        lemma_record_count(
            es.drop_last(),
            zip_name,
            content_type,
            content_encoding,
            max_item_size,
        );
    }
}

/// Each emitted record carries the exact realized byte count of its entry:
/// the line of an entry whose payload resolved to `payload` is the record
/// whose `content_length` field is `payload.len()` and whose body is the
/// base64 text of `payload` — never a size declared elsewhere in the archive.
pub proof fn lemma_content_length_exact(
    e: ZEntry,
    raw: Seq<u8>,
    payload: Seq<u8>,
    zip_name: Seq<char>,
    content_type: Seq<char>,
    content_encoding: Seq<char>,
    max_item_size: u64,
)
    requires
        e.raw == Some(raw),
        spec_payload(raw, e.method, max_item_size) == Some(payload),
    ensures
        spec_entry_line(e, zip_name, content_type, content_encoding, max_item_size) == json_record(
            utf8_lossy_of(e.name),
            content_type,
            content_encoding,
            "base64"@,
            base64_of(payload),
            zip_name,
            payload.len(),
            rfc3339_chars(spec_normalize(e.year, e.month, e.day, e.hour, e.minute, e.second)),
        ),
{
}

/// Skipped entries are absent from the output: removing every entry that
/// does not qualify (payload unresolved or over the per-entry ceiling) leaves
/// the emitted lines unchanged, so a skipped entry contributes nothing.
pub proof fn lemma_skipped_entries_absent(
    es: Seq<ZEntry>,
    zip_name: Seq<char>,
    content_type: Seq<char>,
    content_encoding: Seq<char>,
    max_item_size: u64,
)
    ensures
        spec_lines(es, zip_name, content_type, content_encoding, max_item_size) == spec_lines(
            es.filter(|e: ZEntry| spec_qualifies(e, max_item_size)),
            zip_name,
            content_type,
            content_encoding,
            max_item_size,
        ),
    decreases es.len(),
{
    reveal(Seq::filter);
    let pred = |e: ZEntry| spec_qualifies(e, max_item_size);
    if es.len() > 0 {
        let init = es.drop_last();
        lemma_skipped_entries_absent(init, zip_name, content_type, content_encoding, max_item_size);
        assert(es.filter(pred) == if pred(es.last()) {
            init.filter(pred).push(es.last())
        } else {
            init.filter(pred)
        });
        if pred(es.last()) {
            let f = init.filter(pred).push(es.last());
            assert(f.drop_last() =~= init.filter(pred));
            assert(f.last() == es.last());
            assert(spec_lines(f, zip_name, content_type, content_encoding, max_item_size)
                == spec_lines(
                init.filter(pred),
                zip_name,
                content_type,
                content_encoding,
                max_item_size,
            ).push(
                spec_entry_line(es.last(), zip_name, content_type, content_encoding, max_item_size),
            ));
        }
    } else {
        assert(es.filter(pred) =~= es);
    }
}

/// The emitted stream is a function of the archive bytes, the archive name
/// and the options alone: two conversions of equal inputs emit equal line
/// streams, so running the pipeline twice over the same input gives identical
/// output, and what one archive emits is untouched by any other.
pub proof fn lemma_deterministic(
    data1: Seq<u8>,
    data2: Seq<u8>,
    zip_name1: Seq<char>,
    zip_name2: Seq<char>,
    content_type1: Seq<char>,
    content_type2: Seq<char>,
    content_encoding1: Seq<char>,
    content_encoding2: Seq<char>,
    max_item_size1: u64,
    max_item_size2: u64,
)
    requires
        data1 == data2,
        zip_name1 == zip_name2,
        content_type1 == content_type2,
        content_encoding1 == content_encoding2,
        max_item_size1 == max_item_size2,
    ensures
        spec_archive_lines(data1, zip_name1, content_type1, content_encoding1, max_item_size1)
            == spec_archive_lines(
            data2,
            zip_name2,
            content_type2,
            content_encoding2,
            max_item_size2,
        ),
{
}

} // verus!
