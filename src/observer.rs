use vstd::prelude::*;

verus! {

/// The time-to-first-token record of a streamed response.
pub struct TtftEvent {
    pub rid: u128,
    pub ttft_ms: u128,
    pub first_chunk_bytes: usize,
}

/// Watches the chunks of one streamed response and reports the first one only.
pub struct FirstChunkObserver {
    rid: u128,
    fired: bool,
    chunks: Ghost<nat>,
    records: Ghost<nat>,
}

impl FirstChunkObserver {
    pub closed spec fn spec_rid(&self) -> u128 {
        self.rid
    }

    /// Whether a chunk has been seen already.
    pub closed spec fn spec_fired(&self) -> bool {
        self.fired
    }

    /// How many chunks have been observed.
    pub closed spec fn spec_chunks(&self) -> nat {
        self.chunks@
    }

    /// How many records have been yielded.
    pub closed spec fn spec_records(&self) -> nat {
        self.records@
    }

    /// The flag is set by the first chunk, which alone yields a record.
    pub closed spec fn wf(&self) -> bool {
        &&& self.fired == (self.chunks@ > 0)
        &&& self.records@ == if self.chunks@ > 0 {
            1nat
        } else {
            0nat
        }
    }

    pub fn new(rid: u128) -> (r: FirstChunkObserver)
        ensures
            r.wf(),
            r.spec_rid() == rid,
            !r.spec_fired(),
            r.spec_chunks() == 0,
            r.spec_records() == 0,
    {
        FirstChunkObserver { rid, fired: false, chunks: Ghost(0), records: Ghost(0) }
    }

    pub fn has_fired(&self) -> (r: bool)
        ensures
            r == self.spec_fired(),
    {
        self.fired
    }

    /// Records a chunk of `chunk_len` bytes that arrived `elapsed_ms` after the upstream call
    /// began. The first chunk yields its record; every later one yields nothing.
    pub fn observe(&mut self, chunk_len: usize, elapsed_ms: u128) -> (r: Option<TtftEvent>)
        requires
            old(self).wf(),
        ensures
            final(self).wf(),
            final(self).spec_fired(),
            final(self).spec_rid() == old(self).spec_rid(),
            final(self).spec_chunks() == old(self).spec_chunks() + 1,
            final(self).spec_records() == old(self).spec_records() + if r is Some {
                1nat
            } else {
                0nat
            },
            old(self).spec_fired() ==> r is None,
            !old(self).spec_fired() ==> r == Some(
                TtftEvent { rid: old(self).spec_rid(), ttft_ms: elapsed_ms, first_chunk_bytes: chunk_len },
            ),
    {
        proof {
            self.chunks@ = self.chunks@ + 1;
        }
        if self.fired {
            None
        } else {
            self.fired = true;
            proof {
                self.records@ = self.records@ + 1;
            }
            Some(TtftEvent { rid: self.rid, ttft_ms: elapsed_ms, first_chunk_bytes: chunk_len })
        }
    }
}

/// Over any run of `observe` calls on one response, exactly one record is yielded if at
/// least one chunk arrived, and none if the stream was empty.
pub proof fn lemma_ttft_exactly_once(o: &FirstChunkObserver)
    requires
        o.wf(),
    ensures
        o.spec_records() == if o.spec_chunks() == 0 {
            0nat
        } else {
            1nat
        },
{
}

} // verus!
