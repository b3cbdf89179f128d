//! The archive sink and its incremental emission buffer.
//!
//! An [`ArchiveSink`] couples the append-only byte store that the archive
//! writer fills with the emission cursor marking how much of it has already
//! been handed to the consumer.  A drain reads exactly the bytes between the
//! cursor and the current end — never a byte twice, never a gap — and
//! advances the cursor to the end.  The ghost `emitted` field records the
//! concatenation of everything drained so far; the well-formedness predicate
//! ties it to the first `cursor` bytes of the store.

use crate::errors::StreamError;
use crate::raw::{
    finished_bytes, raw_bytes, raw_entries, raw_finish, raw_flush, raw_len, raw_new, raw_ok,
    raw_open, raw_read_from, raw_start_entry, raw_write_chunk, RawArchive, MAX_ENTRY_BYTES,
    MAX_NAME_CHARS,
};
use vstd::prelude::*;

verus! {

/// The in-progress archive: an append-only byte store, the entries recorded
/// in it, and the emission cursor.
pub struct ArchiveSink {
    /// The zip writer and its backing buffer (trusted boundary).
    pub raw: RawArchive,
    /// How many bytes of the store have been drained already.
    pub cursor: usize,
    /// The concatenation of every drained byte, in drain order.
    pub emitted: Ghost<Seq<u8>>,
}

impl ArchiveSink {
    /// The bytes committed to the store so far.
    pub open spec fn bytes(self) -> Seq<u8> {
        raw_bytes(self.raw)
    }

    /// The entries begun so far: name and uncompressed content, in order.
    pub open spec fn entries(self) -> Seq<(Seq<char>, Seq<u8>)> {
        raw_entries(self.raw)
    }

    /// The emission cursor.
    pub open spec fn cursor(self) -> nat {
        self.cursor as nat
    }

    /// Everything drained so far, concatenated.
    pub open spec fn emitted_log(self) -> Seq<u8> {
        self.emitted@
    }

    /// The bytes not yet drained: the store from the cursor to its end.
    pub open spec fn pending(self) -> Seq<u8> {
        self.bytes().skip(self.cursor as int)
    }

    /// The complete archive that finalizing this sink yields.
    pub open spec fn final_bytes(self) -> Seq<u8> {
        finished_bytes(self.raw)
    }

    /// Whether every writer operation has succeeded so far: while this
    /// holds, the operations below owe success on their stated conditions.
    pub open spec fn healthy(self) -> bool {
        raw_ok(self.raw)
    }

    /// Whether an entry has been begun and not yet closed by the writer.
    pub open spec fn writing(self) -> bool {
        raw_open(self.raw)
    }

    /// Well-formedness: the cursor lies within the store, and the drained
    /// log is exactly the store's first `cursor` bytes.
    pub open spec fn wf(self) -> bool {
        &&& self.cursor <= self.bytes().len()
        &&& self.emitted@ == self.bytes().take(self.cursor as int)
    }

    /// A fresh, empty sink.
    pub fn new() -> (s: ArchiveSink)
        ensures
            s.wf(),
            s.bytes() == Seq::<u8>::empty(),
            s.entries() == Seq::<(Seq<char>, Seq<u8>)>::empty(),
            s.cursor() == 0,
            s.emitted_log() == Seq::<u8>::empty(),
            s.healthy(),
            !s.writing(),
    {
        let s = ArchiveSink { raw: raw_new(), cursor: 0, emitted: Ghost(Seq::empty()) };
        proof {
            assert(s.bytes().take(0) =~= Seq::<u8>::empty());
        }
        s
    }

    /// Begins a new archive entry under `name`, implicitly closing any entry
    /// still open.  An empty name is refused outright with `WriteError`; on
    /// success one new, empty entry is recorded.  Nothing is emitted and
    /// committed bytes never change.
    pub fn begin_entry(&mut self, name: &str) -> (r: Result<(), StreamError>)
        requires
            old(self).wf(),
        ensures
            final(self).wf(),
            old(self).bytes().is_prefix_of(final(self).bytes()),
            final(self).cursor() == old(self).cursor(),
            final(self).emitted_log() == old(self).emitted_log(),
            name@.len() == 0 ==> r == Result::<(), StreamError>::Err(StreamError::Write)
                && final(self).bytes() == old(self).bytes() && final(self).entries() == old(
                self,
            ).entries(),
            r is Ok ==> name@.len() > 0 && final(self).entries() == old(self).entries().push(
                (name@, Seq::<u8>::empty()),
            ) && final(self).writing() && (old(self).healthy() ==> final(self).healthy()),
            (old(self).healthy() && 0 < name@.len() <= MAX_NAME_CHARS as nat && (forall|i: int|
                0 <= i < old(self).entries().len() ==> (#[trigger] old(self).entries()[i]).0
                    != name@)) ==> r is Ok,
    {
        if name.is_empty() {
            return Err(StreamError::Write);
        }
        let res = raw_start_entry(&mut self.raw, name);
        proof {
            lemma_prefix_take(old(self).bytes(), self.bytes(), old(self).cursor as int);
        }
        match res {
            Ok(()) => Ok(()),
            Err(_) => {
                proof {
                    if old(self).healthy() && 0 < name@.len() <= MAX_NAME_CHARS as nat && (
                    forall|i: int|
                        0 <= i < old(self).entries().len() ==> (#[trigger] old(
                            self,
                        ).entries()[i]).0 != name@) {
                        assert forall|i: int|
                            0 <= i < raw_entries(old(self).raw).len() implies (
                        #[trigger] raw_entries(old(self).raw)[i]).0 != name@ by {
                            assert(old(self).entries()[i] == raw_entries(old(self).raw)[i]);
                        }
                        assert(false);
                    }
                }
                Err(StreamError::Write)
            },
        }
    }

    /// Appends one chunk of an entry's data, compressing it into the store,
    /// and flushes so the appended data is durably visible to the next
    /// drain.  On success the open entry's recorded content grows by exactly
    /// `chunk`.  Nothing is emitted and committed bytes never change.
    pub fn append(&mut self, chunk: &[u8]) -> (r: Result<(), StreamError>)
        requires
            old(self).wf(),
        ensures
            final(self).wf(),
            old(self).bytes().is_prefix_of(final(self).bytes()),
            final(self).cursor() == old(self).cursor(),
            final(self).emitted_log() == old(self).emitted_log(),
            chunk@.len() == 0 ==> r is Ok && *final(self) == *old(self),
            r is Ok && chunk@.len() > 0 ==> old(self).entries().len() > 0 && final(self).entries()
                == old(self).entries().update(old(self).entries().len() - 1, (
                old(self).entries().last().0,
                old(self).entries().last().1 + chunk@,
            )) && final(self).writing() && (old(self).healthy() ==> final(self).healthy()),
            r is Ok && chunk@.len() > 0 ==> append_step(*old(self), *final(self), chunk@),
            (old(self).healthy() && old(self).writing() && old(self).entries().len() > 0 && old(
                self,
            ).entries().last().1.len() + chunk@.len() <= MAX_ENTRY_BYTES as nat) ==> r is Ok,
    {
        if chunk.len() == 0 {
            return Ok(());
        }
        let ghost pre = *old(self);
        let wrote = raw_write_chunk(&mut self.raw, chunk);
        proof {
            lemma_prefix_take(pre.bytes(), self.bytes(), pre.cursor as int);
        }
        let ghost mid = *self;
        if wrote.is_err() {
            return Err(StreamError::Write);
        }
        let flushed = raw_flush(&mut self.raw);
        proof {
            lemma_prefix_take(mid.bytes(), self.bytes(), mid.cursor as int);
        }
        match flushed {
            Ok(()) => Ok(()),
            Err(_) => Err(StreamError::Write),
        }
    }

    /// Drains the bytes appended since the previous drain (or since the
    /// start): exactly the store's range from the cursor to its end, and
    /// advances the cursor to the end.  The store itself is untouched.
    pub fn drain(&mut self) -> (r: Vec<u8>)
        requires
            old(self).wf(),
        ensures
            final(self).wf(),
            drain_step(*old(self), *final(self), r@),
            final(self).bytes() == old(self).bytes(),
            final(self).entries() == old(self).entries(),
            old(self).cursor() <= final(self).cursor(),
            final(self).pending() == Seq::<u8>::empty(),
            final(self).healthy() == old(self).healthy(),
            final(self).writing() == old(self).writing(),
    {
        let len = raw_len(&self.raw);
        let out = raw_read_from(&self.raw, self.cursor);
        self.cursor = len;
        self.emitted = Ghost(self.emitted@ + out@);
        proof {
            assert(self.emitted@ =~= self.bytes().take(self.cursor as int));
            assert(self.pending() =~= Seq::<u8>::empty());
        }
        out
    }

    /// Finalizes the archive: closes the last entry, appends the central
    /// directory and footer, and returns everything not yet drained — the
    /// final emission.  The emitted log plus this final chunk is exactly the
    /// complete archive, and the final chunk is never empty (the footer is
    /// always appended).
    pub fn finish(self) -> (r: Result<Vec<u8>, StreamError>)
        requires
            self.wf(),
        ensures
            r matches Ok(v) ==> {
                &&& v@ == self.final_bytes().skip(self.cursor as int)
                &&& self.emitted_log() + v@ == self.final_bytes()
                &&& v@.len() > 0
                &&& self.bytes().is_prefix_of(self.final_bytes())
            },
            self.healthy() ==> r is Ok,
    {
        let ghost pre = self;
        let ArchiveSink { raw, cursor, emitted: _ } = self;
        match raw_finish(raw) {
            Ok(full) => {
                proof {
                    lemma_prefix_take(pre.bytes(), full@, cursor as int);
                }
                let out = vec_suffix(&full, cursor);
                proof {
                    assert(pre.emitted_log() + out@ =~= full@);
                }
                Ok(out)
            },
            Err(_) => Err(StreamError::Write),
        }
    }
}

/// One append step on an open entry: `post` is `pre` with the last recorded
/// entry's content grown by exactly `chunk`, and nothing newly emitted.
pub open spec fn append_step(pre: ArchiveSink, post: ArchiveSink, chunk: Seq<u8>) -> bool {
    &&& pre.entries().len() > 0
    &&& post.entries() == pre.entries().update(pre.entries().len() - 1, (
        pre.entries().last().0,
        pre.entries().last().1 + chunk,
    ))
    &&& post.emitted_log() == pre.emitted_log()
}

/// Content-integrity law: appended chunks accumulate in arrival order — two
/// successive appends leave the open entry holding its earlier content, then
/// the first chunk, then the second, under its unchanged name.
pub proof fn lemma_append_accumulates(
    s0: ArchiveSink,
    s1: ArchiveSink,
    s2: ArchiveSink,
    c1: Seq<u8>,
    c2: Seq<u8>,
)
    requires
        append_step(s0, s1, c1),
        append_step(s1, s2, c2),
    ensures
        s2.entries().len() == s0.entries().len(),
        s2.entries().last().0 == s0.entries().last().0,
        s2.entries().last().1 == s0.entries().last().1 + c1 + c2,
{
    assert(s2.entries().last().1 =~= s0.entries().last().1 + c1 + c2);
}

/// One drain step: `post` and `out` are what draining `pre` yields — `out`
/// is exactly what was pending, the store is unchanged, the cursor moves to
/// the end, and the drained log grows by `out`.
pub open spec fn drain_step(pre: ArchiveSink, post: ArchiveSink, out: Seq<u8>) -> bool {
    &&& out == pre.pending()
    &&& post.bytes() == pre.bytes()
    &&& post.cursor() == pre.bytes().len()
    &&& post.emitted_log() == pre.emitted_log() + out
}

/// Drain is idempotent: two drains with no intervening append emit nothing
/// the second time.
pub proof fn lemma_drain_idempotent(
    s0: ArchiveSink,
    s1: ArchiveSink,
    s2: ArchiveSink,
    out1: Seq<u8>,
    out2: Seq<u8>,
)
    requires
        drain_step(s0, s1, out1),
        drain_step(s1, s2, out2),
    ensures
        out2 == Seq::<u8>::empty(),
{
    assert(out2 =~= Seq::<u8>::empty());
}

/// Emission accounting: under the sink invariant, the concatenation of all
/// drained bytes is exactly the store's first `cursor` bytes — the cursor
/// equals the emitted length and never exceeds the store's length.
pub proof fn lemma_emission_accounting(s: ArchiveSink)
    requires
        s.wf(),
    ensures
        s.emitted_log() == s.bytes().take(s.cursor as int),
        s.emitted_log().len() == s.cursor(),
        s.cursor() <= s.bytes().len(),
{
}

/// A prefix's first `n` bytes agree with the longer sequence's first `n`.
pub proof fn lemma_prefix_take(a: Seq<u8>, b: Seq<u8>, n: int)
    requires
        a.is_prefix_of(b),
        0 <= n <= a.len(),
    ensures
        a.take(n) == b.take(n),
{
    assert(a.take(n) =~= b.take(n));
}

/// The suffix of a byte vector from `from` to its end, as a fresh vector.
fn vec_suffix(v: &Vec<u8>, from: usize) -> (r: Vec<u8>)
    requires
        from <= v@.len(),
    ensures
        r@ == v@.skip(from as int),
{
    let mut r: Vec<u8> = Vec::new();
    let mut i: usize = from;
    while i < v.len()
        invariant
            from <= i <= v@.len(),
            r@ == v@.subrange(from as int, i as int),
        decreases v@.len() - i,
    {
        let b = v[i];
        r.push(b);
        proof {
            assert(r@ =~= v@.subrange(from as int, i + 1 as int));
        }
        i = i + 1;
    }
    proof {
        assert(r@ =~= v@.skip(from as int));
    }
    r
}

} // verus!
