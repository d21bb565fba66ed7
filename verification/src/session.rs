//! The requester's session bookkeeping.
//!
//! The requester listens on one local UDP socket and keeps, per local
//! source address, at most one active flow: a punched socket to the
//! exposer, the time of the last outbound datagram, and a stale flag set
//! by the flow's reader task when it dies or goes idle. The loop around it
//! owns the sockets; each flow is named here by a plain handle the loop
//! chose.
//!
//! The view of the map is the sequence of its flows in insertion order;
//! every operation pins the new sequence down exactly, and all of them
//! keep the invariant that no two flows share a source address.

use vstd::prelude::*;

use crate::endpoint::SourceAddr;

verus! {

/// A flow with no outbound traffic for this long is idle and gets reaped
/// (milliseconds).
pub const IDLE_TIMEOUT_MS: u64 = 5000;

/// One active flow.
#[derive(Clone, Copy, Debug, PartialEq, Eq, Structural)]
pub struct ActiveFlow {
    /// The local source this flow serves.
    pub source: SourceAddr,
    /// The handle under which the loop keeps this flow's punched socket.
    pub flow_id: u64,
    /// When the source last sent outbound traffic (milliseconds).
    pub last_write: u64,
    /// Set once the flow's reader has died; the flow only awaits removal.
    pub stale: bool,
}

/// No two flows share a source address.
pub open spec fn unique_sources(s: Seq<ActiveFlow>) -> bool {
    forall|i: int, j: int| 0 <= i < j < s.len() ==> s[i].source != s[j].source
}

/// Some flow serves this source.
pub open spec fn contains_source(s: Seq<ActiveFlow>, src: SourceAddr) -> bool {
    exists|i: int| 0 <= i < s.len() && (#[trigger] s[i]).source == src
}

/// The index of the flow serving this source. Meaningful only when
/// `contains_source` holds; unique when `unique_sources` holds.
pub open spec fn index_of_source(s: Seq<ActiveFlow>, src: SourceAddr) -> int {
    choose|i: int| 0 <= i < s.len() && (#[trigger] s[i]).source == src
}

/// A flow survives a reap at time `now` when it is not stale and has seen
/// outbound traffic within the idle timeout.
pub open spec fn healthy_at(f: ActiveFlow, now: u64) -> bool {
    !f.stale && f.last_write + IDLE_TIMEOUT_MS >= now
}

/// The map after a reap at time `now`: the healthy flows, in their
/// original order.
pub open spec fn reaped(s: Seq<ActiveFlow>, now: u64) -> Seq<ActiveFlow>
    decreases s.len(),
{
    if s.len() == 0 {
        Seq::empty()
    } else if healthy_at(s.last(), now) {
        reaped(s.drop_last(), now).push(s.last())
    } else {
        reaped(s.drop_last(), now)
    }
}

/// What the session loop should do with a datagram from a known or
/// unknown source.
#[derive(Clone, Copy, Debug, PartialEq, Eq, Structural)]
pub enum FlowDecision {
    /// Send the datagram on this flow's punched socket.
    Forward { flow_id: u64 },
    /// The flow was stale; it has been removed and the datagram dropped.
    Dropped,
    /// No flow serves this source: punch a new one.
    Punch,
}

/// The requester's map from local source address to active flow.
pub struct ConnectionMap {
    flows: Vec<ActiveFlow>,
}

impl View for ConnectionMap {
    type V = Seq<ActiveFlow>;

    closed spec fn view(&self) -> Seq<ActiveFlow> {
        self.flows@
    }
}

impl ConnectionMap {
    /// At most one flow per source address.
    pub open spec fn wf(self) -> bool {
        unique_sources(self@)
    }

    /// An empty map.
    pub fn new() -> (r: ConnectionMap)
        ensures
            r@ == Seq::<ActiveFlow>::empty(),
            r.wf(),
    {
        ConnectionMap { flows: Vec::new() }
    }

    /// How many flows are active.
    pub fn len(&self) -> (r: usize)
        ensures
            r == self@.len(),
    {
        self.flows.len()
    }

    /// The flow at an index, for walking the map.
    pub fn get(&self, i: usize) -> (r: ActiveFlow)
        requires
            i < self@.len(),
        ensures
            r == self@[i as int],
    {
        self.flows[i]
    }

    /// Finds the flow serving `src`, if any.
    fn find_index(&self, src: SourceAddr) -> (r: Option<usize>)
        ensures
            (r matches Some(i) ==> 0 <= i < self@.len() && self@[i as int].source == src),
            r is None ==> !contains_source(self@, src),
    {
        let mut i: usize = 0;
        while i < self.flows.len()
            invariant
                i <= self@.len(),
                self@.len() == self.flows@.len(),
                forall|j: int| 0 <= j < i ==> (#[trigger] self@[j]).source != src,
            decreases self@.len() - i,
        {
            if self.flows[i].source == src {
                return Some(i);
            }
            i = i + 1;
        }
        None
    }

    /// Decides what to do with a datagram from `src`: forward it on the
    /// flow already serving that source, drop it — removing the flow —
    /// when that flow has gone stale, or punch a new flow for a source
    /// not yet served.
    pub fn dispatch(&mut self, src: SourceAddr) -> (r: FlowDecision)
        requires
            old(self).wf(),
        ensures
            final(self).wf(),
            !contains_source(old(self)@, src) ==> {
                &&& r == FlowDecision::Punch
                &&& final(self)@ == old(self)@
            },
            contains_source(old(self)@, src) ==> ({
                let i = index_of_source(old(self)@, src);
                if old(self)@[i].stale {
                    &&& r == FlowDecision::Dropped
                    &&& final(self)@ == old(self)@.remove(i)
                    &&& !contains_source(final(self)@, src)
                } else {
                    &&& r == (FlowDecision::Forward { flow_id: old(self)@[i].flow_id })
                    &&& final(self)@ == old(self)@
                }
            }),
    {
        match self.find_index(src) {
            None => FlowDecision::Punch,
            Some(i) => {
                proof {
                    let ghost ci = index_of_source(self@, src);
                    assert(self@[ci].source == src);
                    assert(ci == i as int);
                }
                if self.flows[i].stale {
                    let ghost pre = self@;
                    self.flows.remove(i);
                    proof {
                        lemma_remove_source(pre, i as int);
                    }
                    FlowDecision::Dropped
                } else {
                    FlowDecision::Forward { flow_id: self.flows[i].flow_id }
                }
            },
        }
    }

    /// Records a fresh outbound datagram on the flow serving `src`.
    /// Does nothing when no flow serves that source.
    pub fn touch(&mut self, src: SourceAddr, now: u64) -> (r: bool)
        requires
            old(self).wf(),
        ensures
            final(self).wf(),
            !contains_source(old(self)@, src) ==> !r && final(self)@ == old(self)@,
            contains_source(old(self)@, src) ==> ({
                let i = index_of_source(old(self)@, src);
                &&& r
                &&& final(self)@ == old(self)@.update(
                    i,
                    ActiveFlow {
                        source: old(self)@[i].source,
                        flow_id: old(self)@[i].flow_id,
                        last_write: now,
                        stale: old(self)@[i].stale,
                    },
                )
            }),
    {
        match self.find_index(src) {
            None => false,
            Some(i) => {
                proof {
                    let ghost ci = index_of_source(self@, src);
                    assert(self@[ci].source == src);
                    assert(ci == i as int);
                }
                let mut f = self.flows[i];
                f.last_write = now;
                self.flows.set(i, f);
                proof {
                    assert forall|a: int, b: int|
                        0 <= a < b < self@.len() implies (self@[a]).source != (self@[b]).source by {
                        assert(old(self)@[a].source != old(self)@[b].source);
                    }
                }
                true
            },
        }
    }

    /// Marks the flow serving `src` stale: from here it only awaits
    /// removal. Does nothing when no flow serves that source.
    pub fn mark_stale(&mut self, src: SourceAddr) -> (r: bool)
        requires
            old(self).wf(),
        ensures
            final(self).wf(),
            !contains_source(old(self)@, src) ==> !r && final(self)@ == old(self)@,
            contains_source(old(self)@, src) ==> ({
                let i = index_of_source(old(self)@, src);
                &&& r
                &&& final(self)@ == old(self)@.update(
                    i,
                    ActiveFlow {
                        source: old(self)@[i].source,
                        flow_id: old(self)@[i].flow_id,
                        last_write: old(self)@[i].last_write,
                        stale: true,
                    },
                )
            }),
    {
        match self.find_index(src) {
            None => false,
            Some(i) => {
                proof {
                    let ghost ci = index_of_source(self@, src);
                    assert(self@[ci].source == src);
                    assert(ci == i as int);
                }
                let mut f = self.flows[i];
                f.stale = true;
                self.flows.set(i, f);
                proof {
                    assert forall|a: int, b: int|
                        0 <= a < b < self@.len() implies (self@[a]).source != (self@[b]).source by {
                        assert(old(self)@[a].source != old(self)@[b].source);
                    }
                }
                true
            },
        }
    }

    /// Removes the flow serving `src`, used when a send on its punched
    /// socket failed. Does nothing when no flow serves that source.
    pub fn remove(&mut self, src: SourceAddr) -> (r: bool)
        requires
            old(self).wf(),
        ensures
            final(self).wf(),
            !contains_source(old(self)@, src) ==> !r && final(self)@ == old(self)@,
            contains_source(old(self)@, src) ==> ({
                let i = index_of_source(old(self)@, src);
                &&& r
                &&& final(self)@ == old(self)@.remove(i)
                &&& !contains_source(final(self)@, src)
            }),
    {
        match self.find_index(src) {
            None => false,
            Some(i) => {
                proof {
                    let ghost ci = index_of_source(self@, src);
                    assert(self@[ci].source == src);
                    assert(ci == i as int);
                }
                let ghost pre = self@;
                self.flows.remove(i);
                proof {
                    lemma_remove_source(pre, i as int);
                }
                true
            },
        }
    }

    /// Registers the freshly punched flow for `src`. Refused when a flow
    /// already serves that source.
    pub fn insert(&mut self, src: SourceAddr, flow_id: u64, now: u64) -> (r: bool)
        requires
            old(self).wf(),
        ensures
            final(self).wf(),
            contains_source(old(self)@, src) ==> !r && final(self)@ == old(self)@,
            !contains_source(old(self)@, src) ==> {
                &&& r
                &&& final(self)@ == old(self)@.push(
                    ActiveFlow { source: src, flow_id, last_write: now, stale: false },
                )
            },
    {
        match self.find_index(src) {
            Some(_) => false,
            None => {
                self.flows.push(ActiveFlow { source: src, flow_id, last_write: now, stale: false });
                true
            },
        }
    }

    /// Reaps the map at time `now`: every stale flow, and every flow
    /// with no outbound traffic within the idle timeout, is removed;
    /// the healthy flows stay, in order, untouched.
    pub fn reap(&mut self, now: u64)
        requires
            old(self).wf(),
        ensures
            final(self).wf(),
            final(self)@ == reaped(old(self)@, now),
    {
        let ghost orig = self@;
        let mut kept: Vec<ActiveFlow> = Vec::new();
        let mut i: usize = 0;
        while i < self.flows.len()
            invariant
                i <= orig.len(),
                self@ == orig,
                self@.len() == self.flows@.len(),
                kept@ == reaped(orig.subrange(0, i as int), now),
            decreases orig.len() - i,
        {
            proof {
                assert(orig.subrange(0, i + 1).drop_last() =~= orig.subrange(0, i as int));
                assert(orig.subrange(0, i + 1).last() == orig[i as int]);
            }
            let f = self.flows[i];
            let idle = now > f.last_write && now - f.last_write > IDLE_TIMEOUT_MS;
            if !f.stale && !idle {
                kept.push(f);
            }
            i = i + 1;
        }
        proof {
            assert(orig.subrange(0, orig.len() as int) =~= orig);
        }
        self.flows = kept;
        proof {
            lemma_reaped_properties(orig, now);
        }
    }
}

/// Removing the only flow with a source removes the source; every other
/// source, and every other flow, is untouched.
pub proof fn lemma_remove_source(s: Seq<ActiveFlow>, i: int)
    requires
        unique_sources(s),
        0 <= i < s.len(),
    ensures
        unique_sources(s.remove(i)),
        !contains_source(s.remove(i), s[i].source),
        forall|a: SourceAddr|
            a != s[i].source ==> (contains_source(s.remove(i), a) <==> #[trigger] contains_source(
                s,
                a,
            )),
        forall|j: int| 0 <= j < i ==> #[trigger] s.remove(i)[j] == s[j],
        forall|j: int| i <= j < s.len() - 1 ==> #[trigger] s.remove(i)[j] == s[j + 1],
{
    s.remove_ensures(i);
    assert forall|a: SourceAddr|
        a != s[i].source && #[trigger] contains_source(s, a) implies contains_source(
        s.remove(i),
        a,
    ) by {
        let j = choose|j: int| 0 <= j < s.len() && (#[trigger] s[j]).source == a;
        if j < i {
            assert(s.remove(i)[j].source == a);
        } else {
            assert(s.remove(i)[j - 1].source == a);
        }
    }
}

/// What survives a reap: exactly the healthy flows, each unchanged, and
/// uniqueness of sources is preserved. In particular a flow that is
/// stale, or idle beyond the timeout, is gone after one reap.
pub proof fn lemma_reaped_properties(s: Seq<ActiveFlow>, now: u64)
    ensures
        forall|f: ActiveFlow|
            #[trigger] reaped(s, now).contains(f) <==> s.contains(f) && healthy_at(f, now),
        unique_sources(s) ==> unique_sources(reaped(s, now)),
    decreases s.len(),
{
    if s.len() == 0 {
        assert forall|f: ActiveFlow| #[trigger] reaped(s, now).contains(f) implies s.contains(f)
            && healthy_at(f, now) by {}
        assert forall|f: ActiveFlow| s.contains(f) && healthy_at(f, now) implies reaped(
            s,
            now,
        ).contains(f) by {}
    } else {
        let pre = s.drop_last();
        lemma_reaped_properties(pre, now);
        assert forall|f: ActiveFlow| #[trigger] reaped(s, now).contains(f) implies s.contains(f)
            && healthy_at(f, now) by {
            if reaped(pre, now).contains(f) {
                let j = choose|j: int| 0 <= j < pre.len() && pre[j] == f;
                assert(s[j] == f);
            } else {
                assert(f == s.last());
                assert(s[s.len() - 1] == f);
            }
        }
        assert forall|f: ActiveFlow| s.contains(f) && healthy_at(f, now) implies #[trigger] reaped(
            s,
            now,
        ).contains(f) by {
            let j = choose|j: int| 0 <= j < s.len() && s[j] == f;
            if j < s.len() - 1 {
                assert(pre[j] == f);
                assert(reaped(pre, now).contains(f));
                if healthy_at(s.last(), now) {
                    let m = choose|m: int|
                        0 <= m < reaped(pre, now).len() && reaped(pre, now)[m] == f;
                    assert(reaped(s, now)[m] == f);
                }
            } else {
                assert(f == s.last());
                assert(reaped(s, now).last() == f);
            }
        }
        if unique_sources(s) {
            assert forall|a: int, b: int|
                0 <= a < b < pre.len() implies pre[a].source != pre[b].source by {
                assert(s[a].source != s[b].source);
            }
            if healthy_at(s.last(), now) {
                assert forall|a: int, b: int|
                    0 <= a < b < reaped(s, now).len() implies reaped(s, now)[a].source != reaped(
                    s,
                    now,
                )[b].source by {
                    if b < reaped(s, now).len() - 1 {
                        assert(reaped(pre, now)[a] == reaped(s, now)[a]);
                        assert(reaped(pre, now)[b] == reaped(s, now)[b]);
                    } else {
                        let fa = reaped(pre, now)[a];
                        assert(reaped(pre, now).contains(fa));
                        assert(pre.contains(fa));
                        let m = choose|m: int| 0 <= m < pre.len() && pre[m] == fa;
                        assert(s[m] == fa);
                        assert(s[m].source != s[s.len() - 1].source);
                    }
                }
            }
        }
    }
}

/// The reader task's idle test: with no outbound traffic within the
/// idle timeout, the flow is dead and the reader must mark it stale and
/// exit.
pub fn reader_idle(last_write: u64, now: u64) -> (r: bool)
    ensures
        r <==> now > last_write + IDLE_TIMEOUT_MS,
{
    now > last_write && now - last_write > IDLE_TIMEOUT_MS
}

/// Whether the periodic stale-entry purge is due on the session loop:
/// more than the idle timeout has passed since the last one.
pub fn cleanup_due(last_cleanup: u64, now: u64) -> (r: bool)
    ensures
        r <==> now > last_cleanup + IDLE_TIMEOUT_MS,
{
    now > last_cleanup && now - last_cleanup > IDLE_TIMEOUT_MS
}

} // verus!
