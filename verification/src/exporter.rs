//! The batching exporter's decision core: accumulate formatted samples,
//! cut them into newline-joined datagram payloads under a size bound, and
//! compute the pacing pause. The surrounding task owns the UDP socket and
//! performs the sends and sleeps.
use crate::channel::try_recv_string;
use crate::strfmt::{
    byte_count,
    byte_len, join_with, join_with_sep, lemma_join_byte_len, lemma_sum_byte_lens_push,
    sum_byte_lens,
};
use vstd::prelude::*;

verus! {

/// Threshold on the cumulative byte size of pending samples: once a batch
/// crosses it, the batch is flushed as one datagram.
pub const MAX_BATCH_SIZE: usize = 25000;

/// Accumulates formatted samples and cuts them into newline-joined
/// datagram payloads whose pending size is bounded.
pub struct Batcher {
    pending: Vec<String>,
    size: usize,
    limit: usize,
}

impl Batcher {
    /// The samples accumulated since the last flush, in arrival order.
    pub closed spec fn spec_pending(&self) -> Seq<Seq<char>> {
        self.pending.deep_view()
    }

    /// The cumulative UTF-8 byte size of the pending samples, separators
    /// not counted.
    pub closed spec fn spec_size(&self) -> nat {
        self.size as nat
    }

    /// The flush threshold in bytes.
    pub closed spec fn spec_limit(&self) -> nat {
        self.limit as nat
    }

    /// The size counter matches the pending samples, and sits at or below
    /// the threshold: a batch is flushed as soon as it crosses.
    pub open spec fn wf(&self) -> bool {
        self.spec_size() == sum_byte_lens(self.spec_pending()) && self.spec_size()
            <= self.spec_limit()
    }

    /// An empty batcher with the default threshold.
    pub fn new() -> (r: Batcher)
        ensures
            r.wf(),
            r.spec_pending().len() == 0,
            r.spec_limit() == MAX_BATCH_SIZE as nat,
    {
        Batcher { pending: Vec::new(), size: 0, limit: MAX_BATCH_SIZE }
    }

    /// An empty batcher with its own flush threshold.
    pub fn with_limit(limit: usize) -> (r: Batcher)
        ensures
            r.wf(),
            r.spec_pending().len() == 0,
            r.spec_limit() == limit as nat,
    {
        Batcher { pending: Vec::new(), size: 0, limit }
    }

    /// Add one sample. When the cumulative size crosses the threshold,
    /// the whole pending batch - the sample that crossed it included - is
    /// handed back as one newline-joined datagram payload and the batch
    /// resets; otherwise the sample is retained.
    pub fn push(&mut self, msg: String) -> (r: Option<String>)
        requires
            old(self).wf(),
        ensures
            final(self).wf(),
            final(self).spec_limit() == old(self).spec_limit(),
            ({
                let added = old(self).spec_pending().push(msg@);
                if sum_byte_lens(added) > old(self).spec_limit() {
                    (r matches Some(d) && d@ == join_with(added, '\n')
                        && final(self).spec_pending().len() == 0)
                } else {
                    r is None && final(self).spec_pending() == added
                }
            }),
    {
        let ghost m = msg@;
        let ghost before = self.spec_pending();
        let n = byte_count(msg.as_str());
        self.pending.push(msg);
        proof {
            lemma_sum_byte_lens_push(before, m);
            assert(self.pending.deep_view() =~= before.push(m));
        }
        let crossed: bool = match self.size.checked_add(n) {
            Some(s) => {
                if s > self.limit {
                    true
                } else {
                    self.size = s;
                    false
                }
            },
            None => true,
        };
        if crossed {
            proof {
                reveal_strlit("\n");
            }
            let out = join_with_sep(&self.pending, "\n");
            self.pending = Vec::new();
            self.size = 0;
            proof {
                assert(("\n")@[0] == '\n');
                assert(self.pending.deep_view() =~= Seq::<Seq<char>>::empty());
            }
            Some(out)
        } else {
            None
        }
    }

    /// Hand back the final partial batch, if any, as one newline-joined
    /// datagram payload; with nothing pending, nothing is produced.
    pub fn flush(&mut self) -> (r: Option<String>)
        requires
            old(self).wf(),
        ensures
            final(self).wf(),
            final(self).spec_limit() == old(self).spec_limit(),
            final(self).spec_pending().len() == 0,
            old(self).spec_pending().len() == 0 <==> r is None,
            old(self).spec_pending().len() > 0 ==> (r matches Some(d) && d@ == join_with(
                old(self).spec_pending(),
                '\n',
            )),
    {
        if self.pending.len() == 0 {
            None
        } else {
            proof {
                reveal_strlit("\n");
            }
            let out = join_with_sep(&self.pending, "\n");
            self.pending = Vec::new();
            self.size = 0;
            proof {
                assert(("\n")@[0] == '\n');
                assert(self.pending.deep_view() =~= Seq::<Seq<char>>::empty());
            }
            Some(out)
        }
    }
}

/// Size bound on every datagram that `push` cuts: at most the threshold,
/// plus the byte size of the one sample that crossed it, plus one newline
/// for each earlier sample in the batch. In particular a single oversized
/// sample still goes out whole, as the only sample of its datagram.
pub proof fn lemma_datagram_size_bound(pending: Seq<Seq<char>>, msg: Seq<char>, limit: nat)
    requires
        sum_byte_lens(pending) <= limit,
        sum_byte_lens(pending.push(msg)) > limit,
    ensures
        byte_len(join_with(pending.push(msg), '\n')) <= limit + byte_len(msg) + pending.len(),
        byte_len(join_with(pending.push(msg), '\n')) == sum_byte_lens(pending) + byte_len(msg)
            + pending.len(),
{
    assert((('\n') as u32) < 0x80);
    lemma_sum_byte_lens_push(pending, msg);
    lemma_join_byte_len(pending.push(msg), '\n');
}

/// Drain the queue without blocking: pop until it reports empty - or
/// until `max_samples` pops, so that a torrent of concurrent producers
/// cannot hold the exporter in the drain forever - batching the samples
/// and cutting a datagram whenever the pending size crosses the
/// threshold, then flush the final partial batch. Returns the datagram
/// payloads to transmit, in order.
pub fn drain_queue(
    rx: &crossbeam_channel::Receiver<String>,
    b: &mut Batcher,
    max_samples: usize,
) -> (r: Vec<String>)
    requires
        old(b).wf(),
    ensures
        final(b).wf(),
        final(b).spec_limit() == old(b).spec_limit(),
        final(b).spec_pending().len() == 0,
{
    let ghost limit0 = b.spec_limit();
    let mut out: Vec<String> = Vec::new();
    let mut budget: usize = max_samples;
    loop
        invariant
            b.wf(),
            b.spec_limit() == limit0,
        decreases budget,
    {
        if budget == 0 {
            break ;
        }
        budget = budget - 1;
        let msg = match try_recv_string(rx) {
            Some(m) => m,
            None => { break },
        };
        if let Some(d) = b.push(msg) {
            out.push(d);
        }
    }
    if let Some(d) = b.flush() {
        out.push(d);
    }
    out
}

/// The remaining pacing pause after a drain that took `elapsed_ms` of the
/// configured interval: the exporter sleeps exactly this long, looping
/// again immediately once the work already consumed the whole interval.
pub fn remaining_pause(interval_ms: u64, elapsed_ms: u64) -> (r: u64)
    ensures
        elapsed_ms < interval_ms ==> r == interval_ms - elapsed_ms,
        elapsed_ms >= interval_ms ==> r == 0,
{
    if elapsed_ms < interval_ms {
        interval_ms - elapsed_ms
    } else {
        0
    }
}

} // verus!
