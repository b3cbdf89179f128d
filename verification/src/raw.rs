//! The trusted boundary around the zip crate's streaming archive writer.
//!
//! The writer runs in stream mode (`zip::ZipWriter::new_stream` over a plain
//! `Vec<u8>`), in which the zip crate documents that any operation that would
//! overwrite previously-written bytes returns an error instead: entry sizes
//! and checksums go into appended data descriptors, never into patched
//! headers, so the backing buffer only ever grows.  The writer is also built
//! with `set_auto_large_file`, so a data descriptor switches to its 64-bit
//! form instead of failing when an entry's sizes outgrow the 32-bit fields.
//! Every contract below leans on that configuration.
//!
//! Ghost observers describe a writer: `raw_bytes` is the byte content of the
//! backing buffer (the archive sink); `raw_entries` records, in order, each
//! entry begun so far as its name paired with the uncompressed bytes
//! appended to it; `raw_ok` says that every operation on the writer has
//! succeeded so far (the writer is on its documented happy path); `raw_open`
//! says an entry has been begun and not yet closed.  `finished_bytes` names
//! the complete archive that finishing a given writer state yields; nothing
//! here states what those bytes are, only how they relate to the sink.

use std::io::Write;
use vstd::prelude::*;

verus! {

/// The writer refuses to grow an entry past this many uncompressed bytes:
/// the zip format's 32-bit size limit, enforced without the per-file
/// large-file option.
pub const MAX_ENTRY_BYTES: u64 = 0xFFFF_FFFF;

/// A conservative cap on an entry name's length in characters: a UTF-8
/// character takes at most four bytes, so this many characters always fit
/// the format's 16-bit name-length field (65535 bytes).
pub const MAX_NAME_CHARS: usize = 0x3FFF;

/// The zip crate's error type, carried through opaquely.
#[verifier::external_type_specification]
#[verifier::external_body]
pub struct ExZipError(zip::result::ZipError);

/// The standard I/O error type, carried through opaquely.
#[verifier::external_type_specification]
#[verifier::external_body]
pub struct ExIoError(std::io::Error);

/// A zip archive being written, append-only, into an in-memory buffer.
///
/// Holds `zip::ZipWriter` in stream mode; opaque to verification, observed
/// only through the ghost observers below.
#[verifier::external_body]
pub struct RawArchive {
    writer: zip::ZipWriter<zip::write::StreamWriter<Vec<u8>>>,
}

/// The bytes the writer has committed to its backing buffer so far.
pub uninterp spec fn raw_bytes(w: RawArchive) -> Seq<u8>;

/// The entries begun so far, in order: each entry's name paired with the
/// uncompressed bytes appended to it.
pub uninterp spec fn raw_entries(w: RawArchive) -> Seq<(Seq<char>, Seq<u8>)>;

/// Whether every operation on this writer has returned `Ok` so far, keeping
/// it on the zip crate's documented happy path.
pub uninterp spec fn raw_ok(w: RawArchive) -> bool;

/// Whether an entry has been begun and not yet closed by the writer.
pub uninterp spec fn raw_open(w: RawArchive) -> bool;

/// The complete archive that finishing the writer state `w` produces.
pub uninterp spec fn finished_bytes(w: RawArchive) -> Seq<u8>;

/// Relies on `zip::ZipWriter::new_stream` and `set_auto_large_file`: a fresh
/// stream-mode writer over an empty `Vec<u8>` has written nothing, holds no
/// entries, and has no entry open.
#[verifier::external_body]
pub(crate) fn raw_new() -> (w: RawArchive)
    ensures
        raw_bytes(w) == Seq::<u8>::empty(),
        raw_entries(w) == Seq::<(Seq<char>, Seq<u8>)>::empty(),
        raw_ok(w),
        !raw_open(w),
{
    RawArchive { writer: zip::ZipWriter::new_stream(Vec::new()).set_auto_large_file() }
}

/// Relies on `zip::ZipWriter::get_ref` and `Vec::len`: the length of the
/// backing buffer.
#[verifier::external_body]
pub(crate) fn raw_len(w: &RawArchive) -> (n: usize)
    ensures
        n == raw_bytes(*w).len(),
{
    match w.writer.get_ref() {
        Some(sw) => sw.get_ref().len(),
        None => 0,
    }
}

/// Relies on `zip::ZipWriter::get_ref` and slice copying: the backing
/// buffer's bytes from `from` to its end.
#[verifier::external_body]
pub(crate) fn raw_read_from(w: &RawArchive, from: usize) -> (r: Vec<u8>)
    requires
        from <= raw_bytes(*w).len(),
    ensures
        r@ == raw_bytes(*w).skip(from as int),
{
    match w.writer.get_ref() {
        Some(sw) => sw.get_ref()[from..].to_vec(),
        None => Vec::new(),
    }
}

/// Relies on `zip::ZipWriter::start_file` in stream mode: it closes any
/// previously open entry (appending its data descriptor — in 64-bit form
/// when needed, thanks to `set_auto_large_file`), then appends the new
/// entry's local header; nothing already written changes.  On success one
/// new, empty entry with the given name has been begun.  On the happy path
/// its only failure causes are a name already recorded (the duplicate check)
/// and a name too long for the 16-bit length field; a fresh name of at most
/// `MAX_NAME_CHARS` characters therefore succeeds.
#[verifier::external_body]
pub(crate) fn raw_start_entry(w: &mut RawArchive, name: &str) -> (r: Result<
    (),
    zip::result::ZipError,
>)
    ensures
        raw_bytes(*old(w)).is_prefix_of(raw_bytes(*final(w))),
        r is Ok ==> raw_entries(*final(w)) == raw_entries(*old(w)).push((name@, Seq::<u8>::empty()))
            && raw_open(*final(w)) && (raw_ok(*old(w)) ==> raw_ok(*final(w))),
        (raw_ok(*old(w)) && name@.len() <= MAX_NAME_CHARS as nat && (forall|i: int|
            0 <= i < raw_entries(*old(w)).len() ==> (#[trigger] raw_entries(*old(w))[i]).0
                != name@)) ==> r is Ok,
{
    let options = zip::write::SimpleFileOptions::default().compression_method(
        zip::CompressionMethod::Deflated,
    );
    w.writer.start_file(name, options)
}

/// Relies on `std::io::Write::write_all` on `zip::ZipWriter`: compresses and
/// appends the given bytes to the currently open entry; it errors if no
/// entry is open, and in stream mode never rewrites committed bytes.  On
/// success the last entry's recorded content grows by exactly `data`.  On
/// the happy path with an entry open, its only failure cause is the entry
/// passing `MAX_ENTRY_BYTES` uncompressed bytes (the backing `Vec` itself
/// cannot fail), so a write that keeps the entry within that limit succeeds.
/// An empty slice is excluded: `write_all` would skip the writer's
/// no-open-entry check and succeed without recording anything.
#[verifier::external_body]
pub(crate) fn raw_write_chunk(w: &mut RawArchive, data: &[u8]) -> (r: Result<
    (),
    std::io::Error,
>)
    requires
        data@.len() > 0,
    ensures
        raw_bytes(*old(w)).is_prefix_of(raw_bytes(*final(w))),
        r is Ok ==> raw_entries(*old(w)).len() > 0 && raw_entries(*final(w)) == raw_entries(
            *old(w),
        ).update(raw_entries(*old(w)).len() - 1, (
            raw_entries(*old(w)).last().0,
            raw_entries(*old(w)).last().1 + data@,
        )) && raw_open(*final(w)) && (raw_ok(*old(w)) ==> raw_ok(*final(w))),
        (raw_ok(*old(w)) && raw_open(*old(w)) && raw_entries(*old(w)).len() > 0 && raw_entries(
            *old(w),
        ).last().1.len() + data@.len() <= MAX_ENTRY_BYTES as nat) ==> r is Ok,
{
    w.writer.write_all(data)
}

/// Relies on `std::io::Write::flush` on `zip::ZipWriter`: pushes any bytes
/// buffered by the compressor through to the backing buffer, so appended
/// data is durably visible before a drain; it appends and records nothing.
/// On the happy path it cannot fail: the only errors it can surface are the
/// backing writer's, and a `Vec` has none.
#[verifier::external_body]
pub(crate) fn raw_flush(w: &mut RawArchive) -> (r: Result<(), std::io::Error>)
    ensures
        raw_bytes(*old(w)).is_prefix_of(raw_bytes(*final(w))),
        raw_entries(*final(w)) == raw_entries(*old(w)),
        raw_open(*final(w)) == raw_open(*old(w)),
        raw_ok(*old(w)) ==> r is Ok && raw_ok(*final(w)),
{
    w.writer.flush()
}

/// Relies on `zip::ZipWriter::finish` in stream mode: it closes the last
/// open entry, appends the central directory and the end-of-central-directory
/// record (at least its fixed block, so strictly more bytes than were
/// committed), and returns the backing buffer, now a complete archive.  On
/// the happy path it cannot fail: the descriptor takes its 64-bit form when
/// needed (`set_auto_large_file`), every size and count in the central
/// directory and footer is clamped rather than rejected, and the only seeks
/// are the no-op ones the stream writer accepts.
#[verifier::external_body]
pub(crate) fn raw_finish(w: RawArchive) -> (r: Result<Vec<u8>, zip::result::ZipError>)
    ensures
        r matches Ok(v) ==> v@ == finished_bytes(w) && raw_bytes(w).is_prefix_of(finished_bytes(w))
            && raw_bytes(w).len() < finished_bytes(w).len(),
        raw_ok(w) ==> r is Ok,
{
    match w.writer.finish() {
        Ok(sw) => Ok(sw.into_inner()),
        Err(e) => Err(e),
    }
}

} // verus!
