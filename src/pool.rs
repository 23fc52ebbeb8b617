//! Bookkeeping of a fixed-capacity connection pool: permits, the idle set
//! and its eviction. The pool hands out connections of any type `C`; the
//! caller opens new ones and performs all I/O.

use vstd::prelude::*;

verus! {

/// A connection last returned at `returned_at` is still fit for reuse at
/// `now`: it has not been idle longer than `max_idle_ms`.
pub open spec fn fresh(returned_at: u64, now: u64, max_idle_ms: u64) -> bool {
    now - returned_at <= max_idle_ms
}

/// The idle entries that survive eviction at `now`, in their order.
pub open spec fn surviving<C>(idle: Seq<(C, u64)>, now: u64, max_idle_ms: u64) -> Seq<(C, u64)> {
    idle.filter(|e: (C, u64)| fresh(e.1, now, max_idle_ms))
}

/// What a caller holding a new permit does next.
pub enum Lease<C> {
    /// Use this idle connection.
    Reuse(C),
    /// No idle connection is fit: open a new one.
    Open,
    /// Every permit is taken: wait for a release and ask again.
    Wait,
}

/// Whether a failed operation is replayed on a fresh connection.
#[derive(Clone, Copy, Debug, PartialEq, Eq, Structural)]
pub enum Fault {
    /// The transport broke or went stale; the operation never reached the store.
    StaleTransport,
    /// Any other failure, such as a rejected query.
    Other,
}

/// An operation that failed on its `attempts`-th try is replayed once, and only
/// when the transport went stale.
pub fn retry_after_fault(attempts: u32, fault: Fault) -> (r: bool)
    ensures
        r == (fault == Fault::StaleTransport && attempts == 1),
{
    match fault {
        Fault::StaleTransport => attempts == 1,
        Fault::Other => false,
    }
}

/// Permits and idle connections of a pool of fixed capacity.
pub struct PoolState<C> {
    idle: Vec<(C, u64)>,
    available: usize,
    max_connections: usize,
    max_idle_ms: u64,
}

impl<C> PoolState<C> {
    pub closed spec fn idle(&self) -> Seq<(C, u64)> {
        self.idle@
    }

    /// Permits not taken.
    pub closed spec fn available(&self) -> nat {
        self.available as nat
    }

    pub closed spec fn max_connections(&self) -> nat {
        self.max_connections as nat
    }

    pub closed spec fn max_idle_ms(&self) -> u64 {
        self.max_idle_ms
    }

    /// Connections handed out and not yet returned.
    pub open spec fn leased(&self) -> int {
        self.max_connections() - self.available()
    }

    /// No more permits are free than the capacity, and the idle set never
    /// holds more connections than there are free permits.
    pub open spec fn wf(&self) -> bool {
        &&& self.available() <= self.max_connections()
        &&& self.idle().len() <= self.available()
    }

    /// What `acquire` at `now` does, going from `self` to `next` and
    /// answering `r`: without a free permit nothing changes and the answer is
    /// to wait; otherwise one permit is taken, stale idle connections are
    /// dropped, and the most recently returned fresh one is handed out, or,
    /// when none is left, the answer is to open one.
    pub open spec fn acquire_step(self, next: Self, r: Lease<C>, now: u64) -> bool {
        let kept = surviving(self.idle(), now, self.max_idle_ms());
        &&& next.max_connections() == self.max_connections()
        &&& next.max_idle_ms() == self.max_idle_ms()
        &&& self.available() == 0 ==> r is Wait && next.idle() == self.idle() && next.available() == 0
        &&& self.available() > 0 ==> {
            &&& next.available() == self.available() - 1
            &&& kept.len() == 0 ==> r is Open && next.idle().len() == 0
            &&& kept.len() > 0 ==> r == Lease::Reuse(kept.last().0) && next.idle() == kept.drop_last()
        }
    }

    /// What `release` of `conn` at `now` does, going from `self` to `next`:
    /// the permit is always freed, and the connection joins the idle set,
    /// stamped `now`, only while the idle set is smaller than the free permits.
    pub open spec fn release_step(self, next: Self, conn: Option<C>, now: u64) -> bool {
        &&& next.available() == self.available() + 1
        &&& next.max_connections() == self.max_connections()
        &&& next.max_idle_ms() == self.max_idle_ms()
        &&& conn is Some && self.idle().len() < self.available()
            ==> next.idle() == self.idle().push((conn->Some_0, now))
        &&& !(conn is Some && self.idle().len() < self.available()) ==> next.idle() == self.idle()
    }

    /// An empty pool with every permit free.
    pub fn new(max_connections: usize, max_idle_ms: u64) -> (r: PoolState<C>)
        ensures
            r.wf(),
            r.idle().len() == 0,
            r.available() == max_connections,
            r.max_connections() == max_connections,
            r.max_idle_ms() == max_idle_ms,
            r.leased() == 0,
    {
        PoolState { idle: Vec::new(), available: max_connections, max_connections, max_idle_ms }
    }

    /// Number of permits not taken.
    pub fn available_permits(&self) -> (r: usize)
        ensures
            r == self.available(),
    {
        self.available
    }

    /// Number of connections that may be leased at once.
    pub fn capacity(&self) -> (r: usize)
        ensures
            r == self.max_connections(),
    {
        self.max_connections
    }

    /// Number of idle connections kept for reuse.
    pub fn idle_len(&self) -> (r: usize)
        ensures
            r == self.idle().len(),
    {
        self.idle.len()
    }

    /// Drops every idle connection that is not fresh at `now`, keeping the
    /// order of the rest.
    fn evict_stale(&mut self, now: u64)
        ensures
            final(self).idle() == surviving(old(self).idle(), now, old(self).max_idle_ms()),
            final(self).available == old(self).available,
            final(self).max_connections == old(self).max_connections,
            final(self).max_idle_ms == old(self).max_idle_ms,
    {
        let ghost all = self.idle@;
        let ghost max_idle = self.max_idle_ms;
        let ghost free = self.available;
        let ghost cap = self.max_connections;
        let ghost pred = |e: (C, u64)| fresh(e.1, now, max_idle);
        let mut kept: Vec<(C, u64)> = Vec::new();
        let mut i: usize = 0;
        assert(all.len() == self.idle.len());
        proof {
            assert(all.take(0) =~= Seq::<(C, u64)>::empty());
            reveal(Seq::filter);
        }
        while self.idle.len() > 0
            invariant
                i <= all.len(),
                all.len() <= usize::MAX,
                self.idle@ == all.skip(i as int),
                kept@ == all.take(i as int).filter(pred),
                self.max_idle_ms == max_idle,
                self.available == free,
                self.max_connections == cap,
                pred == (|e: (C, u64)| fresh(e.1, now, max_idle)),
            decreases self.idle@.len(),
        {
            proof {
                assert(all.skip(i as int).len() > 0);
                assert(i < all.len());
            }
            let e = self.idle.remove(0);
            proof {
                assert(e == all[i as int]);
                assert(all.take(i + 1).drop_last() =~= all.take(i as int));
                assert(all.take(i + 1).last() == all[i as int]);
                reveal(Seq::filter);
            }
            let keep = now < e.1 || now - e.1 <= self.max_idle_ms;
            if keep {
                kept.push(e);
            }
            i = i + 1;
            proof {
                assert(self.idle@ =~= all.skip(i as int));
            }
        }
        proof {
            assert(all.take(i as int) =~= all);
        }
        self.idle = kept;
    }

    /// Takes a permit, evicts stale idle connections, and hands out the most
    /// recently returned fresh one, or asks the caller to open one. Without a
    /// free permit nothing changes and the caller waits.
    pub fn acquire(&mut self, now: u64) -> (r: Lease<C>)
        requires
            old(self).wf(),
        ensures
            final(self).wf(),
            old(self).acquire_step(*final(self), r, now),
    {
        if self.available == 0 {
            return Lease::Wait;
        }
        self.available = self.available - 1;
        self.evict_stale(now);
        proof {
            let ghost max_idle = self.max_idle_ms;
            old(self).idle().lemma_filter_len(|e: (C, u64)| fresh(e.1, now, max_idle));
        }
        match self.idle.pop() {
            Some(e) => Lease::Reuse(e.0),
            None => Lease::Open,
        }
    }

    /// Gives back a permit. The connection, when there is one, joins the idle
    /// set stamped with `now` only while the idle set is smaller than the
    /// number of free permits; otherwise it is dropped.
    pub fn release(&mut self, conn: Option<C>, now: u64)
        requires
            old(self).wf(),
            old(self).leased() > 0,
        ensures
            final(self).wf(),
            old(self).release_step(*final(self), conn, now),
    {
        match conn {
            Some(c) => {
                if self.idle.len() < self.available {
                    self.idle.push((c, now));
                }
            },
            None => {},
        }
        self.available = self.available + 1;
    }
}

/// Each step keeps the pool well formed.
proof fn lemma_steps_keep_wf<C>(p: PoolState<C>, q: PoolState<C>)
    requires
        p.wf(),
        (exists|r: Lease<C>, now: u64| p.acquire_step(q, r, now))
            || (exists|c: Option<C>, now: u64| p.leased() > 0 && p.release_step(q, c, now)),
    ensures
        q.wf(),
{
    if exists|r: Lease<C>, now: u64| p.acquire_step(q, r, now) {
        let (r, now) = choose|r: Lease<C>, now: u64| p.acquire_step(q, r, now);
        let m = p.max_idle_ms();
        p.idle().lemma_filter_len(|e: (C, u64)| fresh(e.1, now, m));
    }
}

/// A pool step: an acquire, or the release of an outstanding lease.
pub open spec fn pool_step<C>(p: PoolState<C>, q: PoolState<C>) -> bool {
    ||| exists|r: Lease<C>, now: u64| p.acquire_step(q, r, now)
    ||| exists|c: Option<C>, now: u64| p.leased() > 0 && p.release_step(q, c, now)
}

/// At no point are more connections leased than the capacity: along any run
/// of acquires and releases from a new pool, every state leases between none
/// and `max_connections` connections.
pub proof fn lemma_capacity_bound<C>(states: Seq<PoolState<C>>)
    requires
        states.len() > 0,
        states[0].wf(),
        forall|i: int| 0 <= i < states.len() - 1 ==> pool_step(#[trigger] states[i], states[i + 1]),
    ensures
        forall|i: int| 0 <= i < states.len() ==> (#[trigger] states[i]).wf()
            && 0 <= states[i].leased() <= states[i].max_connections(),
    decreases states.len(),
{
    if states.len() > 1 {
        let prefix = states.drop_last();
        assert forall|i: int| 0 <= i < prefix.len() - 1 implies pool_step(#[trigger] prefix[i], prefix[i + 1]) by {
            assert(prefix[i] == states[i] && prefix[i + 1] == states[i + 1]);
            assert(pool_step(states[i], states[i + 1]));
        }
        lemma_capacity_bound(prefix);
        let n = states.len() - 1;
        assert(prefix[n - 1] == states[n - 1]);
        assert(pool_step(states[n - 1], states[n]));
        lemma_steps_keep_wf(states[n - 1], states[n]);
        assert forall|i: int| 0 <= i < states.len() implies (#[trigger] states[i]).wf()
            && 0 <= states[i].leased() <= states[i].max_connections() by {
            if i < n {
                assert(prefix[i] == states[i]);
            }
        }
    }
}

/// With `max_connections` leases outstanding, a further acquirer gets no
/// connection: it is told to wait and nothing changes, until a release
/// frees a permit.
pub proof fn lemma_full_pool_waits<C>(p: PoolState<C>, q: PoolState<C>, r: Lease<C>, now: u64)
    requires
        p.wf(),
        p.leased() == p.max_connections(),
        p.acquire_step(q, r, now),
    ensures
        r is Wait,
        q.leased() == p.leased(),
        q.idle() == p.idle(),
{
}

/// After a release, an acquirer that was told to wait gets a permit.
pub proof fn lemma_release_unblocks<C>(
    p: PoolState<C>,
    q: PoolState<C>,
    c: Option<C>,
    t: u64,
    s: PoolState<C>,
    r: Lease<C>,
    now: u64,
)
    requires
        p.wf(),
        p.leased() > 0,
        p.release_step(q, c, t),
        q.acquire_step(s, r, now),
    ensures
        !(r is Wait),
        s.leased() == p.leased(),
{
}

/// An acquire never hands out a connection idle longer than `max_idle_ms`:
/// a reused connection is fresh, every connection left idle is fresh, and
/// when every idle connection is stale the idle set is emptied and the
/// caller opens a new connection.
pub proof fn lemma_acquire_never_reuses_stale<C>(p: PoolState<C>, q: PoolState<C>, r: Lease<C>, now: u64)
    requires
        p.wf(),
        p.available() > 0,
        p.acquire_step(q, r, now),
    ensures
        r is Reuse ==> fresh(surviving(p.idle(), now, p.max_idle_ms()).last().1, now, p.max_idle_ms())
            && r->Reuse_0 == surviving(p.idle(), now, p.max_idle_ms()).last().0,
        forall|i: int| 0 <= i < q.idle().len() ==> fresh(#[trigger] q.idle()[i].1, now, p.max_idle_ms()),
        (forall|i: int| 0 <= i < p.idle().len() ==> !fresh(#[trigger] p.idle()[i].1, now, p.max_idle_ms()))
            ==> r is Open && q.idle().len() == 0,
{
    let m = p.max_idle_ms();
    let kept = surviving(p.idle(), now, m);
    lemma_stale_never_reused(p.idle(), now, m);
    if kept.len() > 0 {
        assert(kept.last() == kept[kept.len() - 1]);
        assert forall|i: int| 0 <= i < q.idle().len() implies fresh(#[trigger] q.idle()[i].1, now, m) by {
            assert(q.idle()[i] == kept[i]);
        }
    }
}

/// A connection idle for `max_idle_ms` or longer is never handed out again:
/// every connection that survives eviction at `now` is fresh, and when every
/// idle connection is stale none survives, so the caller opens a new one.
pub proof fn lemma_stale_never_reused<C>(idle: Seq<(C, u64)>, now: u64, max_idle_ms: u64)
    ensures
        forall|i: int|
            0 <= i < surviving(idle, now, max_idle_ms).len() ==> fresh(
                #[trigger] surviving(idle, now, max_idle_ms)[i].1,
                now,
                max_idle_ms,
            ),
        (forall|i: int| 0 <= i < idle.len() ==> !fresh(#[trigger] idle[i].1, now, max_idle_ms))
            ==> surviving(idle, now, max_idle_ms).len() == 0,
{
    let pred = |e: (C, u64)| fresh(e.1, now, max_idle_ms);
    assert forall|i: int| 0 <= i < surviving(idle, now, max_idle_ms).len() implies fresh(
        #[trigger] surviving(idle, now, max_idle_ms)[i].1,
        now,
        max_idle_ms,
    ) by {
        idle.lemma_filter_pred(pred, i);
    }
    if forall|i: int| 0 <= i < idle.len() ==> !fresh(#[trigger] idle[i].1, now, max_idle_ms) {
        assert(idle.all(|x: (C, u64)| !pred(x)));
        idle.lemma_all_neg_filter_empty(pred);
    }
}

} // verus!
