//! The rendezvous service registry.
//!
//! Maps each advertised service name to the exposer's public endpoint and
//! the time it was last heard from. The registry owns the bookkeeping rules:
//! a duplicate advertisement is refused, a request consumes the record, a
//! keep-alive refreshes every record of its sender, and a sweep evicts
//! records not refreshed within the TTL.
//!
//! The view of a registry is the sequence of its records, in insertion
//! order, and every operation's contract pins the new sequence down
//! exactly. The well-formedness invariant — at most one record per service
//! name — is established by `new` and preserved by every operation.

use vstd::prelude::*;

use crate::endpoint::Endpoint;
use crate::messages::PunchError;

verus! {

/// A record is evicted when it has not been refreshed for this long
/// (milliseconds).
pub const RECORD_TTL_MS: u64 = 300_000;

/// How often the eviction sweep runs (milliseconds).
pub const SWEEP_INTERVAL_MS: u64 = 600_000;

/// One advertisement, as the contracts see it.
pub struct RecordView {
    /// The advertised service name.
    pub service_name: Seq<u8>,
    /// The exposer's public endpoint, as the rendezvous observed it.
    pub endpoint: Endpoint,
    /// When the exposer was last heard from (milliseconds).
    pub last_seen: u64,
}

/// One advertisement held by the rendezvous.
pub struct Record {
    /// The advertised service name.
    pub service_name: Vec<u8>,
    /// The exposer's public endpoint, as the rendezvous observed it.
    pub endpoint: Endpoint,
    /// When the exposer was last heard from (milliseconds).
    pub last_seen: u64,
}

impl View for Record {
    type V = RecordView;

    open spec fn view(&self) -> RecordView {
        RecordView {
            service_name: self.service_name@,
            endpoint: self.endpoint,
            last_seen: self.last_seen,
        }
    }
}

/// No two records share a service name.
pub open spec fn unique_names(s: Seq<RecordView>) -> bool {
    forall|i: int, j: int|
        0 <= i < j < s.len() ==> s[i].service_name != s[j].service_name
}

/// Some record carries this service name.
pub open spec fn contains_name(s: Seq<RecordView>, name: Seq<u8>) -> bool {
    exists|i: int| 0 <= i < s.len() && #[trigger] s[i].service_name == name
}

/// The index of the record carrying this service name. Meaningful only
/// when `contains_name` holds; unique when `unique_names` holds.
pub open spec fn index_of_name(s: Seq<RecordView>, name: Seq<u8>) -> int {
    choose|i: int| 0 <= i < s.len() && #[trigger] s[i].service_name == name
}

/// The registry after a keep-alive from `from` at time `now`: every record
/// advertised from that endpoint carries the new timestamp, everything
/// else is untouched.
pub open spec fn refresh(s: Seq<RecordView>, from: Endpoint, now: u64) -> Seq<RecordView> {
    Seq::new(
        s.len(),
        |i: int|
            if s[i].endpoint == from {
                RecordView { service_name: s[i].service_name, endpoint: s[i].endpoint, last_seen: now }
            } else {
                s[i]
            },
    )
}

/// A record survives a sweep at time `now` when it was refreshed within
/// the TTL.
pub open spec fn fresh_at(r: RecordView, now: u64) -> bool {
    r.last_seen + RECORD_TTL_MS >= now
}

/// The registry after a sweep at time `now`: the fresh records, in their
/// original order.
pub open spec fn swept(s: Seq<RecordView>, now: u64) -> Seq<RecordView>
    decreases s.len(),
{
    if s.len() == 0 {
        Seq::empty()
    } else if fresh_at(s.last(), now) {
        swept(s.drop_last(), now).push(s.last())
    } else {
        swept(s.drop_last(), now)
    }
}

/// The rendezvous registry: at most one record per service name.
pub struct Registry {
    records: Vec<Record>,
}

impl View for Registry {
    type V = Seq<RecordView>;

    closed spec fn view(&self) -> Seq<RecordView> {
        Seq::new(self.records@.len() as nat, |i: int| self.records@[i]@)
    }
}

/// Compares two byte strings. Service name equality is byte identity.
pub fn bytes_eq(a: &Vec<u8>, b: &Vec<u8>) -> (r: bool)
    ensures
        r <==> a@ == b@,
{
    if a.len() != b.len() {
        return false;
    }
    let mut i: usize = 0;
    while i < a.len()
        invariant
            a@.len() == b@.len(),
            i <= a@.len(),
            forall|j: int| 0 <= j < i ==> a@[j] == b@[j],
        decreases a@.len() - i,
    {
        if a[i] != b[i] {
            return false;
        }
        i = i + 1;
    }
    proof {
        assert(a@ =~= b@);
    }
    true
}

impl Registry {
    /// At most one record per service name.
    pub open spec fn wf(self) -> bool {
        unique_names(self@)
    }

    /// An empty registry.
    pub fn new() -> (r: Registry)
        ensures
            r@ == Seq::<RecordView>::empty(),
            r.wf(),
    {
        let r = Registry { records: Vec::new() };
        proof {
            assert(r@ =~= Seq::<RecordView>::empty());
        }
        r
    }

    /// How many records are registered.
    pub fn len(&self) -> (r: usize)
        ensures
            r == self@.len(),
    {
        self.records.len()
    }

    /// Finds the record carrying `name`, if any.
    fn find_index(&self, name: &Vec<u8>) -> (r: Option<usize>)
        ensures
            (r matches Some(i) ==> 0 <= i < self@.len() && self@[i as int].service_name == name@),
            r is None ==> !contains_name(self@, name@),
    {
        let mut i: usize = 0;
        while i < self.records.len()
            invariant
                i <= self@.len(),
                self@.len() == self.records@.len(),
                forall|j: int| 0 <= j < i ==> #[trigger] self@[j].service_name != name@,
            decreases self@.len() - i,
        {
            if bytes_eq(&self.records[i].service_name, name) {
                return Some(i);
            }
            i = i + 1;
        }
        None
    }

    /// Whether a record for `name` is present.
    pub fn contains_service(&self, name: &Vec<u8>) -> (r: bool)
        ensures
            r <==> contains_name(self@, name@),
    {
        match self.find_index(name) {
            Some(_) => true,
            None => false,
        }
    }

    /// Handles an Advertise: refuses a duplicate service name, otherwise
    /// appends a record for the sender, stamped `now`.
    pub fn advertise(&mut self, service_name: Vec<u8>, from: Endpoint, now: u64) -> (r: Result<
        (),
        PunchError,
    >)
        requires
            old(self).wf(),
        ensures
            final(self).wf(),
            contains_name(old(self)@, service_name@) ==> {
                &&& r matches Err(e) && e == PunchError::DuplicateKey
                &&& final(self)@ == old(self)@
            },
            !contains_name(old(self)@, service_name@) ==> {
                &&& r is Ok
                &&& final(self)@ == old(self)@.push(
                    RecordView { service_name: service_name@, endpoint: from, last_seen: now },
                )
            },
    {
        match self.find_index(&service_name) {
            Some(_) => Err(PunchError::DuplicateKey),
            None => {
                let ghost name = service_name@;
                self.records.push(Record { service_name, endpoint: from, last_seen: now });
                proof {
                    assert(self@ =~= old(self)@.push(
                        RecordView { service_name: name, endpoint: from, last_seen: now },
                    ));
                }
                Ok(())
            },
        }
    }

    /// Handles a Request: consumes the record for `service_name` and
    /// returns the advertised endpoint, or returns nothing when no
    /// exposer is registered under that name.
    pub fn request(&mut self, service_name: &Vec<u8>) -> (r: Option<Endpoint>)
        requires
            old(self).wf(),
        ensures
            final(self).wf(),
            !contains_name(old(self)@, service_name@) ==> {
                &&& r is None
                &&& final(self)@ == old(self)@
            },
            contains_name(old(self)@, service_name@) ==> ({
                let i = index_of_name(old(self)@, service_name@);
                &&& r matches Some(ep) && ep == old(self)@[i].endpoint
                &&& final(self)@ == old(self)@.remove(i)
                &&& !contains_name(final(self)@, service_name@)
            }),
    {
        match self.find_index(service_name) {
            None => None,
            Some(i) => {
                let rec = self.records.remove(i);
                proof {
                    let ghost pre = old(self)@;
                    assert(self@ =~= pre.remove(i as int));
                    let ghost ci = index_of_name(pre, service_name@);
                    assert(pre[ci].service_name == service_name@);
                    assert(ci == i as int);
                    lemma_remove_name(pre, i as int);
                }
                Some(rec.endpoint)
            },
        }
    }

    /// Handles a KeepAlive from `from` at time `now`: refreshes the
    /// timestamp of every record advertised from that endpoint and
    /// touches nothing else.
    pub fn keep_alive(&mut self, from: Endpoint, now: u64)
        requires
            old(self).wf(),
        ensures
            final(self).wf(),
            final(self)@ == refresh(old(self)@, from, now),
    {
        let ghost orig = self@;
        let mut i: usize = 0;
        while i < self.records.len()
            invariant
                i <= self.records@.len(),
                self@.len() == self.records@.len(),
                orig.len() == self.records@.len(),
                forall|j: int| 0 <= j < i ==> self@[j] == #[trigger] refresh(orig, from, now)[j],
                forall|j: int| i <= j < orig.len() ==> #[trigger] self@[j] == orig[j],
            decreases self.records@.len() - i,
        {
            let ghost before = self@;
            if self.records[i].endpoint == from {
                let mut rec = self.records.remove(i);
                rec.last_seen = now;
                self.records.insert(i, rec);
                proof {
                    assert(self@ =~= before.update(
                        i as int,
                        RecordView {
                            service_name: before[i as int].service_name,
                            endpoint: before[i as int].endpoint,
                            last_seen: now,
                        },
                    ));
                }
            }
            i = i + 1;
        }
        proof {
            assert(self@ =~= refresh(orig, from, now));
            assert forall|a: int, b: int| 0 <= a < b < self@.len() implies self@[a].service_name
                != self@[b].service_name by {
                assert(orig[a].service_name != orig[b].service_name);
            }
        }
    }

    /// Evicts every record not refreshed within the TTL, keeping the rest
    /// in order.
    pub fn sweep(&mut self, now: u64)
        requires
            old(self).wf(),
        ensures
            final(self).wf(),
            final(self)@ == swept(old(self)@, now),
    {
        let ghost orig = self@;
        let ghost k: int = 0;
        let mut i: usize = 0;
        while i < self.records.len()
            invariant
                0 <= k <= orig.len(),
                i as int == swept(orig.subrange(0, k), now).len(),
                self@ == swept(orig.subrange(0, k), now) + orig.subrange(k, orig.len() as int),
                self@.len() == self.records@.len(),
            decreases orig.len() - k,
        {
            let ghost before = self@;
            proof {
                assert(before[i as int] == orig[k]);
                assert(orig.subrange(0, k + 1).drop_last() =~= orig.subrange(0, k));
                assert(orig.subrange(0, k + 1).last() == orig[k]);
            }
            let stale = now > self.records[i].last_seen
                && now - self.records[i].last_seen > RECORD_TTL_MS;
            if stale {
                self.records.remove(i);
                proof {
                    assert(!fresh_at(orig[k], now));
                    assert(swept(orig.subrange(0, k + 1), now) == swept(orig.subrange(0, k), now));
                    assert(self@ =~= before.remove(i as int));
                    before.remove_ensures(i as int);
                    assert(self@ =~= swept(orig.subrange(0, k + 1), now) + orig.subrange(
                        k + 1,
                        orig.len() as int,
                    ));
                    k = k + 1;
                }
            } else {
                proof {
                    assert(fresh_at(orig[k], now));
                    assert(self@ =~= swept(orig.subrange(0, k + 1), now) + orig.subrange(
                        k + 1,
                        orig.len() as int,
                    ));
                    k = k + 1;
                }
                i = i + 1;
            }
        }
        proof {
            assert(orig.subrange(0, k) =~= orig);
            assert(self@ =~= swept(orig, now));
            lemma_swept_properties(orig, now);
        }
    }
}

/// Removing the only record with a name removes the name; every other
/// name, and every other record, is untouched.
pub proof fn lemma_remove_name(s: Seq<RecordView>, i: int)
    requires
        unique_names(s),
        0 <= i < s.len(),
    ensures
        unique_names(s.remove(i)),
        !contains_name(s.remove(i), s[i].service_name),
        forall|n: Seq<u8>|
            n != s[i].service_name ==> (contains_name(s.remove(i), n) <==> #[trigger] contains_name(
                s,
                n,
            )),
        forall|j: int| 0 <= j < i ==> #[trigger] s.remove(i)[j] == s[j],
        forall|j: int| i <= j < s.len() - 1 ==> #[trigger] s.remove(i)[j] == s[j + 1],
{
    s.remove_ensures(i);
    assert forall|n: Seq<u8>|
        n != s[i].service_name && #[trigger] contains_name(s, n) implies contains_name(
        s.remove(i),
        n,
    ) by {
        let j = choose|j: int| 0 <= j < s.len() && #[trigger] s[j].service_name == n;
        if j < i {
            assert(s.remove(i)[j].service_name == n);
        } else {
            assert(s.remove(i)[j - 1].service_name == n);
        }
    }
}

/// What survives a sweep: exactly the records refreshed within the TTL,
/// each unchanged; no name appears that was not there, and uniqueness of
/// names is preserved.
pub proof fn lemma_swept_properties(s: Seq<RecordView>, now: u64)
    ensures
        forall|r: RecordView| #[trigger] swept(s, now).contains(r) <==> s.contains(r) && fresh_at(r, now),
        forall|n: Seq<u8>| #[trigger] contains_name(swept(s, now), n) ==> contains_name(s, n),
        unique_names(s) ==> unique_names(swept(s, now)),
    decreases s.len(),
{
    if s.len() == 0 {
        assert forall|r: RecordView| #[trigger] swept(s, now).contains(r) implies s.contains(r)
            && fresh_at(r, now) by {}
        assert forall|r: RecordView| s.contains(r) && fresh_at(r, now) implies swept(
            s,
            now,
        ).contains(r) by {}
    } else {
        let pre = s.drop_last();
        lemma_swept_properties(pre, now);
        assert forall|r: RecordView| #[trigger] swept(s, now).contains(r) implies s.contains(r)
            && fresh_at(r, now) by {
            if swept(pre, now).contains(r) {
                let j = choose|j: int| 0 <= j < pre.len() && pre[j] == r;
                assert(s[j] == r);
            } else {
                assert(r == s.last());
                assert(s[s.len() - 1] == r);
            }
        }
        assert forall|r: RecordView| s.contains(r) && fresh_at(r, now) implies #[trigger] swept(
            s,
            now,
        ).contains(r) by {
            let j = choose|j: int| 0 <= j < s.len() && s[j] == r;
            if j < s.len() - 1 {
                assert(pre[j] == r);
                assert(swept(pre, now).contains(r));
                if fresh_at(s.last(), now) {
                    let m = choose|m: int| 0 <= m < swept(pre, now).len() && swept(pre, now)[m] == r;
                    assert(swept(s, now)[m] == r);
                }
            } else {
                assert(r == s.last());
                assert(swept(s, now).last() == r);
            }
        }
        assert forall|n: Seq<u8>| #[trigger] contains_name(swept(s, now), n) implies contains_name(
            s,
            n,
        ) by {
            let j = choose|j: int|
                0 <= j < swept(s, now).len() && #[trigger] swept(s, now)[j].service_name == n;
            let r = swept(s, now)[j];
            assert(swept(s, now).contains(r));
            assert(s.contains(r));
            let m = choose|m: int| 0 <= m < s.len() && s[m] == r;
            assert(s[m].service_name == n);
        }
        if unique_names(s) {
            assert forall|a: int, b: int|
                0 <= a < b < pre.len() implies pre[a].service_name != pre[b].service_name by {
                assert(s[a].service_name != s[b].service_name);
            }
            if fresh_at(s.last(), now) {
                assert forall|a: int, b: int|
                    0 <= a < b < swept(s, now).len() implies swept(s, now)[a].service_name != swept(
                    s,
                    now,
                )[b].service_name by {
                    if b < swept(s, now).len() - 1 {
                        assert(swept(pre, now)[a] == swept(s, now)[a]);
                        assert(swept(pre, now)[b] == swept(s, now)[b]);
                    } else {
                        let ra = swept(pre, now)[a];
                        assert(swept(pre, now).contains(ra));
                        assert(pre.contains(ra));
                        let m = choose|m: int| 0 <= m < pre.len() && pre[m] == ra;
                        assert(s[m] == ra);
                        assert(s[m].service_name != s[s.len() - 1].service_name);
                    }
                }
            }
        }
    }
}

/// The registry holds at most one record per service name: two indices
/// carrying the same name are the same index.
pub proof fn lemma_at_most_one_record(s: Seq<RecordView>, i: int, j: int)
    requires
        unique_names(s),
        0 <= i < s.len(),
        0 <= j < s.len(),
        s[i].service_name == s[j].service_name,
    ensures
        i == j,
{
}

/// Keep-alives are idempotent: any run of keep-alives from the same
/// endpoint leaves the registry exactly as the latest one alone would —
/// the matching records carry the latest timestamp, and nothing else
/// changes.
pub proof fn lemma_keep_alive_idempotent(
    s: Seq<RecordView>,
    from: Endpoint,
    t1: u64,
    t2: u64,
)
    ensures
        refresh(refresh(s, from, t1), from, t2) == refresh(s, from, t2),
        refresh(s, from, t2).len() == s.len(),
        forall|i: int| 0 <= i < s.len() ==> {
            &&& (#[trigger] refresh(s, from, t2)[i]).service_name == s[i].service_name
            &&& refresh(s, from, t2)[i].endpoint == s[i].endpoint
            &&& (s[i].endpoint == from ==> refresh(s, from, t2)[i].last_seen == t2)
            &&& (s[i].endpoint != from ==> refresh(s, from, t2)[i] == s[i])
        },
{
    assert(refresh(refresh(s, from, t1), from, t2) =~= refresh(s, from, t2));
}

/// Once a name is absent it stays absent under everything but an
/// advertisement of that very name: keep-alives, sweeps, removals, and
/// advertisements of other names do not bring it back.
pub proof fn lemma_absent_preserved(s: Seq<RecordView>, name: Seq<u8>, from: Endpoint, now: u64)
    requires
        !contains_name(s, name),
    ensures
        !contains_name(refresh(s, from, now), name),
        !contains_name(swept(s, now), name),
        forall|i: int| 0 <= i < s.len() ==> !contains_name(#[trigger] s.remove(i), name),
        forall|r: RecordView|
            r.service_name != name ==> !contains_name(#[trigger] s.push(r), name),
{
    assert forall|i: int| 0 <= i < s.len() implies !contains_name(#[trigger] s.remove(i), name) by {
        s.remove_ensures(i);
        if contains_name(s.remove(i), name) {
            let j = choose|j: int|
                0 <= j < s.remove(i).len() && #[trigger] s.remove(i)[j].service_name == name;
            if j < i {
                assert(s[j].service_name == name);
            } else {
                assert(s[j + 1].service_name == name);
            }
        }
    }
    lemma_swept_properties(s, now);
    if contains_name(refresh(s, from, now), name) {
        let j = choose|j: int|
            0 <= j < refresh(s, from, now).len() && #[trigger] refresh(s, from, now)[j].service_name
                == name;
        assert(s[j].service_name == name);
    }
    assert forall|r: RecordView| r.service_name != name implies !contains_name(
        #[trigger] s.push(r),
        name,
    ) by {
        if contains_name(s.push(r), name) {
            let j = choose|j: int|
                0 <= j < s.push(r).len() && #[trigger] s.push(r)[j].service_name == name;
            if j < s.len() {
                assert(s[j].service_name == name);
            }
        }
    }
}

} // verus!
