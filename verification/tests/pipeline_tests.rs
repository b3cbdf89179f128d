use std::io::Read;
use zipstream::errors::StreamError;
use zipstream::manifest::ManifestEntry;
use zipstream::pipeline::Pipeline;
use zipstream::sink::ArchiveSink;

fn entry(url: &str, name: &str) -> ManifestEntry {
    ManifestEntry::new(url.to_string(), name.to_string())
}

fn decode(bytes: Vec<u8>) -> zip::ZipArchive<std::io::Cursor<Vec<u8>>> {
    zip::ZipArchive::new(std::io::Cursor::new(bytes)).expect("emitted bytes must decode")
}

#[test]
fn two_entries_round_trip() {
    let manifest = vec![
        entry("http://example.com/a", "a.bin"),
        entry("http://example.com/b", "b.bin"),
    ];
    let mut p = Pipeline::new(manifest);
    let mut emitted: Vec<u8> = Vec::new();

    let url_a = p.begin_entry().expect("first entry begins");
    assert_eq!(url_a, "http://example.com/a");
    p.append_chunk(&[0x01, 0x02]).expect("first chunk appends");
    let e1 = p.finish_entry().expect("first emission");
    emitted.extend_from_slice(&e1);

    let url_b = p.begin_entry().expect("second entry begins");
    assert_eq!(url_b, "http://example.com/b");
    p.append_chunk(&[0x03]).expect("second chunk appends");
    let e2 = p.finish_entry().expect("second emission");
    emitted.extend_from_slice(&e2);

    let last = p.finish().expect("closing emission");
    assert!(!last.is_empty());
    emitted.extend_from_slice(&last);

    let mut archive = decode(emitted);
    assert_eq!(archive.len(), 2);
    {
        let mut f = archive.by_index(0).expect("entry 0 present");
        assert_eq!(f.name(), "a.bin");
        let mut buf = Vec::new();
        f.read_to_end(&mut buf).expect("entry 0 reads");
        assert_eq!(buf, vec![0x01u8, 0x02u8]);
    }
    {
        let mut f = archive.by_index(1).expect("entry 1 present");
        assert_eq!(f.name(), "b.bin");
        let mut buf = Vec::new();
        f.read_to_end(&mut buf).expect("entry 1 reads");
        assert_eq!(buf, vec![0x03u8]);
    }
}

#[test]
fn chunked_entry_preserves_content() {
    let mut p = Pipeline::new(vec![entry("http://example.com/c", "c.bin")]);
    let mut emitted: Vec<u8> = Vec::new();
    p.begin_entry().expect("entry begins");
    p.append_chunk(b"hello ").expect("chunk one");
    p.append_chunk(b"streamed ").expect("chunk two");
    p.append_chunk(b"world").expect("chunk three");
    emitted.extend_from_slice(&p.finish_entry().expect("entry emission"));
    emitted.extend_from_slice(&p.finish().expect("closing emission"));

    let mut archive = decode(emitted);
    let mut f = archive.by_index(0).expect("entry present");
    assert_eq!(f.name(), "c.bin");
    let mut buf = Vec::new();
    f.read_to_end(&mut buf).expect("entry reads");
    assert_eq!(buf, b"hello streamed world".to_vec());
}

#[test]
fn empty_manifest_still_emits_valid_archive() {
    let p = Pipeline::new(Vec::new());
    let last = p.finish().expect("closing emission");
    assert!(!last.is_empty());
    let archive = decode(last);
    assert_eq!(archive.len(), 0);
}

#[test]
fn fetch_failure_stops_stream() {
    let manifest = vec![
        entry("http://example.com/a", "a.bin"),
        entry("http://example.com/b", "b.bin"),
    ];
    let mut p = Pipeline::new(manifest);
    p.begin_entry().expect("first entry begins");
    p.append_chunk(&[0x09]).expect("first chunk appends");
    p.finish_entry().expect("first emission");

    p.begin_entry().expect("second entry begins");
    p.fail();
    assert!(p.has_failed());
    assert_eq!(p.append_chunk(&[0x01]), Err(StreamError::Write));
    assert!(p.finish_entry().is_err());
    assert!(matches!(p.finish(), Err(StreamError::Write)));
}

#[test]
fn empty_filename_is_refused() {
    let mut p = Pipeline::new(vec![entry("http://example.com/a", "")]);
    assert_eq!(p.begin_entry().map(|_| ()), Err(StreamError::Write));
    assert!(p.has_failed());
}

#[test]
fn duplicate_filename_is_refused() {
    let manifest = vec![
        entry("http://example.com/a", "same.bin"),
        entry("http://example.com/b", "same.bin"),
    ];
    let mut p = Pipeline::new(manifest);
    p.begin_entry().expect("first entry begins");
    p.append_chunk(&[0x01]).expect("chunk appends");
    p.finish_entry().expect("first emission");
    assert!(p.begin_entry().is_err());
    assert!(p.has_failed());
}

#[test]
fn appending_without_open_entry_is_refused() {
    let mut p = Pipeline::new(vec![entry("http://example.com/a", "a.bin")]);
    assert_eq!(p.append_chunk(&[0x01]), Err(StreamError::Write));
}

#[test]
fn finishing_with_entries_left_is_refused() {
    let p = Pipeline::new(vec![entry("http://example.com/a", "a.bin")]);
    assert!(matches!(p.finish(), Err(StreamError::Write)));
}

#[test]
fn begin_past_end_is_refused() {
    let mut p = Pipeline::new(Vec::new());
    assert!(p.begin_entry().is_err());
}

#[test]
fn drain_twice_returns_empty_second_time() {
    let mut s = ArchiveSink::new();
    s.begin_entry("x.bin").expect("entry begins");
    s.append(&[0x01, 0x02, 0x03]).expect("chunk appends");
    let first = s.drain();
    assert!(!first.is_empty());
    let second = s.drain();
    assert!(second.is_empty());
}

#[test]
fn getters_track_progress() {
    let mut p = Pipeline::new(vec![entry("http://example.com/a", "a.bin")]);
    assert_eq!(p.total_entries(), 1);
    assert_eq!(p.completed_entries(), 0);
    assert!(!p.entry_open());
    p.begin_entry().expect("entry begins");
    assert!(p.entry_open());
    p.append_chunk(&[0x01]).expect("chunk appends");
    p.finish_entry().expect("entry emission");
    assert_eq!(p.completed_entries(), 1);
    assert!(!p.entry_open());
    assert!(!p.has_failed());
}

#[test]
fn empty_chunk_is_accepted_and_adds_nothing() {
    let mut p = Pipeline::new(vec![entry("http://example.com/d", "d.bin")]);
    let mut emitted: Vec<u8> = Vec::new();
    p.begin_entry().expect("entry begins");
    p.append_chunk(&[]).expect("empty chunk is a no-op");
    p.append_chunk(b"xy").expect("chunk appends");
    p.append_chunk(&[]).expect("empty chunk is a no-op");
    emitted.extend_from_slice(&p.finish_entry().expect("entry emission"));
    emitted.extend_from_slice(&p.finish().expect("closing emission"));

    let mut archive = decode(emitted);
    let mut f = archive.by_index(0).expect("entry present");
    assert_eq!(f.name(), "d.bin");
    let mut buf = Vec::new();
    f.read_to_end(&mut buf).expect("entry reads");
    assert_eq!(buf, b"xy".to_vec());
}
