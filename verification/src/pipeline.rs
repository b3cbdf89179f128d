//! The stream orchestrator.
//!
//! One [`Pipeline`] drives one request: for each manifest entry in order it
//! begins the entry in the archive writer, takes the fetched chunks one by
//! one, and on entry completion drains the sink and hands the new bytes back
//! as one emission unit; after the last entry it finalizes the archive and
//! yields the closing emission.  The caller performs the actual network
//! fetches and forwards each emission to the consumer; every decision —
//! entry order, naming, cursor movement, error policy — is made here.
//!
//! Any error is fatal to the whole request: the pipeline enters its failed
//! state, every later call is refused, and nothing further is emitted.

use crate::errors::StreamError;
use crate::manifest::{manifest_names, ManifestEntry};
use crate::raw::{MAX_ENTRY_BYTES, MAX_NAME_CHARS};
use crate::sink::ArchiveSink;
use vstd::prelude::*;

verus! {

/// The orchestrator's state for one request.
pub struct Pipeline {
    /// The manifest, fixed for the request's lifetime.
    pub manifest: Vec<ManifestEntry>,
    /// The archive sink and emission cursor.
    pub sink: ArchiveSink,
    /// How many entries have been fully appended and drained.
    pub index: usize,
    /// Whether an entry has been begun but not yet drained.
    pub in_entry: bool,
    /// Whether a fatal error has been observed.
    pub failed: bool,
}

impl Pipeline {
    /// Everything emitted so far, concatenated.
    pub open spec fn emitted(self) -> Seq<u8> {
        self.sink.emitted_log()
    }

    /// The names of the entries recorded in the archive, in order.
    pub open spec fn entry_names(self) -> Seq<Seq<char>> {
        self.sink.entries().map(|i: int, e: (Seq<char>, Seq<u8>)| e.0)
    }

    /// How many entries the archive should hold right now.
    pub open spec fn expected_entries(self) -> int {
        self.index + if self.in_entry {
            1int
        } else {
            0int
        }
    }

    /// Well-formedness: the sink invariant holds, the indices lie in range,
    /// and — as long as no error has struck — the writer is on its happy
    /// path (with an entry open exactly while one is being appended) and the
    /// recorded entries are exactly the manifest's first `expected_entries`
    /// names, in order.
    pub open spec fn wf(self) -> bool {
        &&& self.sink.wf()
        &&& self.index <= self.manifest@.len()
        &&& (self.in_entry ==> self.index < self.manifest@.len())
        &&& (!self.failed ==> {
            &&& self.sink.healthy()
            &&& (self.in_entry ==> self.sink.writing())
            &&& self.sink.entries().len() == self.expected_entries()
            &&& (forall|i: int|
                0 <= i < self.sink.entries().len() ==> #[trigger] self.sink.entries()[i].0
                    == self.manifest@[i].filename@)
        })
    }

    /// A fresh pipeline over a manifest: nothing fetched, nothing emitted.
    pub fn new(manifest: Vec<ManifestEntry>) -> (p: Pipeline)
        ensures
            p.wf(),
            p.manifest@ == manifest@,
            p.emitted() == Seq::<u8>::empty(),
            p.index == 0,
            !p.in_entry,
            !p.failed,
            p.sink.bytes() == Seq::<u8>::empty(),
            p.sink.entries() == Seq::<(Seq<char>, Seq<u8>)>::empty(),
    {
        Pipeline { manifest, sink: ArchiveSink::new(), index: 0, in_entry: false, failed: false }
    }

    /// Begins the next manifest entry in the archive and returns the URL to
    /// fetch for it.  Refused — fatally — when the pipeline has failed, an
    /// entry is still open, the manifest is exhausted, or the entry's target
    /// name is empty.  Nothing is emitted by this step.
    pub fn begin_entry(&mut self) -> (r: Result<String, StreamError>)
        requires
            old(self).wf(),
        ensures
            final(self).wf(),
            final(self).manifest@ == old(self).manifest@,
            final(self).emitted() == old(self).emitted(),
            final(self).sink.cursor() == old(self).sink.cursor(),
            old(self).sink.bytes().is_prefix_of(final(self).sink.bytes()),
            old(self).failed ==> r is Err,
            r is Err ==> final(self).failed,
            r matches Ok(url) ==> {
                &&& !old(self).failed
                &&& !old(self).in_entry
                &&& old(self).index < old(self).manifest@.len()
                &&& url@ == old(self).manifest@[old(self).index as int].url@
                &&& old(self).manifest@[old(self).index as int].filename@.len() > 0
                &&& final(self).sink.entries() == old(self).sink.entries().push(
                    (old(self).manifest@[old(self).index as int].filename@, Seq::<u8>::empty()),
                )
                &&& final(self).in_entry
                &&& !final(self).failed
                &&& final(self).index == old(self).index
            },
            (!old(self).failed && !old(self).in_entry && old(self).index < old(
                self,
            ).manifest@.len() && old(self).manifest@[old(self).index as int].filename@.len() == 0)
                ==> r == Result::<String, StreamError>::Err(StreamError::Write),
            (!old(self).failed && !old(self).in_entry && old(self).index < old(
                self,
            ).manifest@.len() && 0 < old(self).manifest@[old(
                self,
            ).index as int].filename@.len() <= MAX_NAME_CHARS as nat && (forall|j: int|
                0 <= j < old(self).index ==> (#[trigger] old(self).manifest@[j]).filename@ != old(
                    self,
                ).manifest@[old(self).index as int].filename@)) ==> r is Ok,
    {
        if self.failed || self.in_entry || self.index >= self.manifest.len() {
            self.failed = true;
            return Err(StreamError::Write);
        }
        let url = self.manifest[self.index].url.clone();
        let filename = self.manifest[self.index].filename.clone();
        match self.sink.begin_entry(filename.as_str()) {
            Ok(()) => {
                self.in_entry = true;
                proof {
                    let post = *self;
                    assert forall|i: int| 0 <= i < post.sink.entries().len() implies #[trigger] post
                        .sink.entries()[i].0 == post.manifest@[i].filename@ by {
                        if i < old(self).sink.entries().len() {
                            assert(post.sink.entries()[i] == old(self).sink.entries()[i]);
                        }
                    }
                }
                Ok(url)
            },
            Err(e) => {
                proof {
                    let pre = *old(self);
                    if !pre.failed && !pre.in_entry && pre.index < pre.manifest@.len() && 0 < pre
                        .manifest@[pre.index as int].filename@.len() <= MAX_NAME_CHARS as nat && (
                    forall|j: int|
                        0 <= j < pre.index ==> (#[trigger] pre.manifest@[j]).filename@ != pre
                            .manifest@[pre.index as int].filename@) {
                        assert forall|i: int|
                            0 <= i < pre.sink.entries().len() implies (#[trigger] pre
                            .sink.entries()[i]).0 != filename@ by {
                            assert(pre.sink.entries()[i].0 == pre.manifest@[i].filename@);
                        }
                        assert(false);
                    }
                }
                self.failed = true;
                Err(e)
            },
        }
    }

    /// Appends one fetched chunk to the open entry, compressed into the
    /// sink.  Refused — fatally — without an open entry or after a failure.
    /// Nothing is emitted by this step.
    pub fn append_chunk(&mut self, chunk: &[u8]) -> (r: Result<(), StreamError>)
        requires
            old(self).wf(),
        ensures
            final(self).wf(),
            final(self).manifest@ == old(self).manifest@,
            final(self).emitted() == old(self).emitted(),
            final(self).sink.cursor() == old(self).sink.cursor(),
            old(self).sink.bytes().is_prefix_of(final(self).sink.bytes()),
            old(self).failed ==> r is Err,
            r is Err ==> final(self).failed,
            r is Ok ==> {
                &&& !old(self).failed
                &&& old(self).in_entry
                &&& old(self).sink.entries().len() > 0
                &&& final(self).sink.entries() == old(self).sink.entries().update(
                    old(self).sink.entries().len() - 1,
                    (
                        old(self).sink.entries().last().0,
                        old(self).sink.entries().last().1 + chunk@,
                    ),
                )
                &&& final(self).in_entry
                &&& !final(self).failed
                &&& final(self).index == old(self).index
            },
            (!old(self).failed && old(self).in_entry && old(self).sink.entries().last().1.len()
                + chunk@.len() <= MAX_ENTRY_BYTES as nat) ==> r is Ok,
    {
        if self.failed || !self.in_entry {
            self.failed = true;
            return Err(StreamError::Write);
        }
        match self.sink.append(chunk) {
            Ok(()) => {
                proof {
                    let pre = *old(self);
                    if chunk@.len() == 0 {
                        assert(pre.sink.entries().last().1 + chunk@ =~= pre.sink.entries().last().1);
                        assert(pre.sink.entries().update(pre.sink.entries().len() - 1, (
                            pre.sink.entries().last().0,
                            pre.sink.entries().last().1 + chunk@,
                        )) =~= pre.sink.entries());
                    }
                    let post = *self;
                    assert forall|i: int| 0 <= i < post.sink.entries().len() implies #[trigger] post
                        .sink.entries()[i].0 == post.manifest@[i].filename@ by {
                        if i < post.sink.entries().len() - 1 {
                            assert(post.sink.entries()[i] == old(self).sink.entries()[i]);
                        }
                    }
                }
                Ok(())
            },
            Err(e) => {
                self.failed = true;
                Err(e)
            },
        }
    }

    /// Closes out the current entry's cycle: drains every byte appended
    /// since the previous emission and returns it as this entry's emission
    /// unit.  Succeeds exactly when an entry is open and nothing has failed.
    pub fn finish_entry(&mut self) -> (r: Result<Vec<u8>, StreamError>)
        requires
            old(self).wf(),
        ensures
            final(self).wf(),
            final(self).manifest@ == old(self).manifest@,
            r is Ok <==> (old(self).in_entry && !old(self).failed),
            r is Err ==> final(self).failed && final(self).emitted() == old(self).emitted(),
            r matches Ok(chunk) ==> {
                &&& chunk@ == old(self).sink.pending()
                &&& final(self).emitted() == old(self).emitted() + chunk@
                &&& final(self).sink.bytes() == old(self).sink.bytes()
                &&& final(self).sink.entries() == old(self).sink.entries()
                &&& final(self).sink.pending() == Seq::<u8>::empty()
                &&& final(self).index == old(self).index + 1
                &&& !final(self).in_entry
                &&& !final(self).failed
                &&& old(self).sink.cursor() <= final(self).sink.cursor()
            },
    {
        if self.failed || !self.in_entry {
            self.failed = true;
            return Err(StreamError::Write);
        }
        let chunk = self.sink.drain();
        let bound = self.manifest.len();
        proof {
            assert(self.index < bound);
        }
        self.index = self.index + 1;
        self.in_entry = false;
        Ok(chunk)
    }

    /// Records a fatal outside failure — a fetch that errored or a consumer
    /// that disconnected.  Emits nothing; every later call is refused.
    pub fn fail(&mut self)
        requires
            old(self).wf(),
        ensures
            final(self).wf(),
            final(self).failed,
            final(self).manifest@ == old(self).manifest@,
            final(self).emitted() == old(self).emitted(),
            final(self).sink.bytes() == old(self).sink.bytes(),
            final(self).sink.cursor() == old(self).sink.cursor(),
    {
        self.failed = true;
    }

    /// How many entries the manifest holds in all.
    pub fn total_entries(&self) -> (n: usize)
        ensures
            n == self.manifest@.len(),
    {
        self.manifest.len()
    }

    /// How many entries have been fully appended and drained so far.
    pub fn completed_entries(&self) -> (n: usize)
        ensures
            n == self.index,
    {
        self.index
    }

    /// Whether a fatal error has been observed.
    pub fn has_failed(&self) -> (b: bool)
        ensures
            b == self.failed,
    {
        self.failed
    }

    /// Whether an entry has been begun but not yet drained.
    pub fn entry_open(&self) -> (b: bool)
        ensures
            b == self.in_entry,
    {
        self.in_entry
    }

    /// Finalizes the archive once every manifest entry has been processed,
    /// and returns the closing emission: everything appended since the last
    /// drain, ending in the container's footer.  The emitted log plus this
    /// final chunk is byte-identical to the complete archive, whose recorded
    /// entry names are exactly the manifest's names in order; the closing
    /// emission is never empty.  Refused after a failure, with an entry
    /// still open, or with manifest entries still unprocessed.
    pub fn finish(self) -> (r: Result<Vec<u8>, StreamError>)
        requires
            self.wf(),
        ensures
            (self.failed || self.in_entry || self.index < self.manifest@.len()) ==> r is Err,
            (!self.failed && !self.in_entry && self.index == self.manifest@.len()) ==> r is Ok,
            r matches Ok(last) ==> {
                &&& !self.failed
                &&& !self.in_entry
                &&& self.index == self.manifest@.len()
                &&& self.emitted() + last@ == self.sink.final_bytes()
                &&& last@.len() > 0
                &&& self.sink.bytes().is_prefix_of(self.sink.final_bytes())
                &&& self.sink.entries().len() == self.manifest@.len()
                &&& self.entry_names() == manifest_names(self.manifest@)
            },
    {
        if self.failed || self.in_entry || self.index < self.manifest.len() {
            return Err(StreamError::Write);
        }
        proof {
            lemma_entries_match_manifest(self);
        }
        self.sink.finish()
    }
}

/// Entry-order law: once every manifest entry has been processed without
/// failure, the archive's recorded entry names equal the manifest's target
/// names, in the manifest's order.
pub proof fn lemma_entries_match_manifest(p: Pipeline)
    requires
        p.wf(),
        !p.failed,
        !p.in_entry,
        p.index == p.manifest@.len(),
    ensures
        p.entry_names() == manifest_names(p.manifest@),
{
    assert(p.entry_names() =~= manifest_names(p.manifest@));
}

} // verus!


