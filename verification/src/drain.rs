//! The per-channel event drain engine.
//!
//! Each event channel owns one kernel buffer per online CPU and one
//! consumer loop.  The loop polls the buffers in a fixed round-robin
//! order; every record a poll yields is copied into a reusable scratch
//! area and handed to the rendering collaborator.  The loop keeps going
//! while its shutdown flag reads false and exits at the first read that
//! yields true, so cancellation latency is bounded by one poll interval.
//! The two channels share nothing: a drain state holds only its own
//! cursor and scratch pool, and a step takes only its own flag and its
//! own polled records.

use vstd::prelude::*;
use vstd::pervasive::VecAdditionalExecFns;

use crate::image::MapRole;

verus! {

/// How many scratch areas the veth-event loop allocates, regardless of
/// CPU count; the network-event loop allocates one per online CPU.
pub const VETH_SCRATCH_POOL: usize = 10;

/// The scratch areas are sized for one event record.
pub const SCRATCH_CAPACITY: usize = 1024;

/// The number of scratch areas a channel's drain loop allocates.
pub open spec fn spec_scratch_pool(channel: MapRole, n_cpus: nat) -> nat {
    match channel {
        MapRole::NetworkEvents => n_cpus,
        MapRole::VethEvents => VETH_SCRATCH_POOL as nat,
    }
}

/// One channel's drain state: its per-CPU buffers (by count), the
/// round-robin cursor over them, and the reusable scratch areas.
#[derive(Debug)]
pub struct DrainState {
    /// One opened kernel buffer per online CPU.
    pub n_buffers: usize,
    /// The buffer the next poll visits.
    pub next: usize,
    /// Reusable areas the polled records are copied into.
    pub scratch: Vec<Vec<u8>>,
}

impl DrainState {
    /// The cursor stays inside the buffers.
    pub open spec fn wf(self) -> bool {
        self.n_buffers > 0 ==> self.next < self.n_buffers
    }
}

/// Set up the drain state of one channel over the online CPUs: one buffer
/// per CPU, the cursor on the first, and the channel's scratch pool with
/// every area empty.
pub fn new_drain(channel: MapRole, n_cpus: usize) -> (r: DrainState)
    ensures
        r.n_buffers == n_cpus,
        r.next == 0,
        r.scratch@.len() == spec_scratch_pool(channel, n_cpus as nat),
        forall|k: int| 0 <= k < r.scratch@.len() ==> #[trigger] r.scratch@[k]@ == Seq::<u8>::empty(),
        r.wf(),
{
    let pool: usize = match channel {
        MapRole::NetworkEvents => n_cpus,
        MapRole::VethEvents => VETH_SCRATCH_POOL,
    };
    let mut scratch: Vec<Vec<u8>> = Vec::new();
    let mut k: usize = 0;
    while k < pool
        invariant
            0 <= k <= pool,
            scratch@.len() == k,
            forall|j: int| 0 <= j < k ==> #[trigger] scratch@[j]@ == Seq::<u8>::empty(),
        decreases pool - k,
    {
        scratch.push(Vec::with_capacity(SCRATCH_CAPACITY));
        k = k + 1;
    }
    DrainState { n_buffers: n_cpus, next: 0, scratch }
}

/// How many of the polled records one step delivers: all of them, capped
/// by the number of scratch areas.
pub open spec fn spec_deliver_count(polled: nat, pool: nat) -> nat {
    if polled < pool {
        polled
    } else {
        pool
    }
}

/// One bounded poll of the drain loop.
///
/// The shutdown flag is read first: if it is true the loop stops — no
/// poll, no delivery, no state change.  Otherwise the buffer under the
/// cursor is polled, each available record is copied into the scratch
/// area of its index, the delivered count is handed back for rendering,
/// and the cursor moves to the next buffer in round-robin order.
pub fn drain_step(st: &mut DrainState, stop_flag: bool, polled: &Vec<Vec<u8>>) -> (r: Option<
    usize,
>)
    requires
        old(st).wf(),
        old(st).n_buffers > 0,
    ensures
        final(st).wf(),
        stop_flag ==> r is None && *final(st) == *old(st),
        !stop_flag ==> {
            &&& r is Some
            &&& r->0 as nat == spec_deliver_count(polled@.len(), old(st).scratch@.len())
            &&& final(st).n_buffers == old(st).n_buffers
            &&& final(st).next == (if old(st).next + 1 == old(st).n_buffers {
                0
            } else {
                old(st).next + 1
            })
            &&& final(st).scratch@.len() == old(st).scratch@.len()
            &&& (forall|k: int|
                0 <= k < r->0 ==> #[trigger] final(st).scratch@[k]@ == polled@[k]@)
            &&& (forall|k: int|
                r->0 <= k < old(st).scratch@.len() ==> #[trigger] final(st).scratch@[k] == old(
                    st,
                ).scratch@[k])
        },
{
    if stop_flag {
        return None;
    }
    let m: usize = if polled.len() < st.scratch.len() {
        polled.len()
    } else {
        st.scratch.len()
    };
    let mut k: usize = 0;
    while k < m
        invariant
            0 <= k <= m,
            m <= polled@.len(),
            m <= st.scratch@.len(),
            st.n_buffers == old(st).n_buffers,
            st.next == old(st).next,
            st.scratch@.len() == old(st).scratch@.len(),
            forall|j: int| 0 <= j < k ==> #[trigger] st.scratch@[j]@ == polled@[j]@,
            forall|j: int|
                k <= j < st.scratch@.len() ==> #[trigger] st.scratch@[j] == old(st).scratch@[j],
        decreases m - k,
    {
        let rec = polled[k].clone();
        proof {
            assert(rec@ =~= polled@[k as int]@);
        }
        st.scratch.set(k, rec);
        k = k + 1;
    }
    if st.next + 1 == st.n_buffers {
        st.next = 0;
    } else {
        st.next = st.next + 1;
    }
    Some(m)
}

/// The buffer the round-robin cursor stands on after some number of
/// polls.
pub open spec fn spec_cursor(start: int, n: int, steps: nat) -> int
    recommends
        n > 0,
        0 <= start < n,
    decreases steps,
{
    if steps == 0 {
        start
    } else {
        let prev = spec_cursor(start, n, (steps - 1) as nat);
        if prev + 1 == n {
            0
        } else {
            prev + 1
        }
    }
}

/// The step at which a drain loop stops, given the values its flag reads
/// will yield: the index of the first true read, or the length when every
/// read yields false.
pub open spec fn spec_stop_step(flags: Seq<bool>) -> int
    decreases flags.len(),
{
    if flags.len() == 0 {
        0
    } else if flags[0] {
        0
    } else {
        1 + spec_stop_step(flags.drop_first())
    }
}

/// The consumer loop of one channel, over the reads and polls of one run.
///
/// `flag_reads[t]` is what the shutdown flag yields at the start of step
/// `t` (the flag is written concurrently by the coordinator), `polls[t]`
/// the records the buffer under the cursor would yield.  The loop drains
/// step by step while the flag reads false and exits at the first true
/// read: it performs exactly `spec_stop_step(flag_reads)` polls, however
/// many records the polls carry.
pub fn drain_loop(st: &mut DrainState, flag_reads: &Vec<bool>, polls: &Vec<Vec<Vec<u8>>>) -> (steps:
    usize)
    requires
        old(st).wf(),
        old(st).n_buffers > 0,
        flag_reads@.len() == polls@.len(),
    ensures
        final(st).wf(),
        final(st).n_buffers == old(st).n_buffers,
        final(st).scratch@.len() == old(st).scratch@.len(),
        steps == spec_stop_step(flag_reads@),
        steps <= flag_reads@.len(),
        forall|t: int| 0 <= t < steps ==> !flag_reads@[t],
        steps < flag_reads@.len() ==> flag_reads@[steps as int],
        final(st).next == spec_cursor(
            old(st).next as int,
            old(st).n_buffers as int,
            steps as nat,
        ),
{
    proof {
        assert(flag_reads@.skip(0) =~= flag_reads@);
    }
    let n = flag_reads.len();
    let mut t: usize = 0;
    while t < n
        invariant
            n == flag_reads@.len(),
            flag_reads@.len() == polls@.len(),
            0 <= t <= n,
            st.wf(),
            st.n_buffers == old(st).n_buffers,
            old(st).n_buffers > 0,
            st.scratch@.len() == old(st).scratch@.len(),
            spec_stop_step(flag_reads@) == t + spec_stop_step(flag_reads@.skip(t as int)),
            forall|u: int| 0 <= u < t ==> !flag_reads@[u],
            st.next == spec_cursor(old(st).next as int, old(st).n_buffers as int, t as nat),
        decreases n - t,
    {
        proof {
            assert(flag_reads@.skip(t as int)[0] == flag_reads@[t as int]);
        }
        if flag_reads[t] {
            return t;
        }
        let _ = drain_step(st, false, &polls[t]);
        proof {
            assert(flag_reads@.skip(t as int).drop_first() =~= flag_reads@.skip(t as int + 1));
        }
        t = t + 1;
    }
    proof {
        assert(flag_reads@.skip(n as int) =~= Seq::<bool>::empty());
    }
    n
}

/// Shutdown promptness: however many records the kernel produces, once
/// some flag read yields true the loop performs no poll at or past that
/// read — its step count is bounded by the index of the first true read.
pub proof fn lemma_shutdown_promptness(flags: Seq<bool>, t: int)
    requires
        0 <= t < flags.len(),
        flags[t],
    ensures
        spec_stop_step(flags) <= t,
    decreases flags.len(),
{
    if flags[0] {
    } else {
        lemma_shutdown_promptness(flags.drop_first(), t - 1);
    }
}

} // verus!
