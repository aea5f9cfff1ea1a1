//! Bounded FIFO pool of reusable local-transport connections.
//!
//! The pool is generic over the connection handle `C`; time is given as a
//! millisecond reading of a monotonic clock, and liveness is decided by a
//! probe that the caller passes in.
use vstd::prelude::*;
use std::collections::VecDeque;

verus! {

/// Largest number of connections the pool keeps.
pub const MAX_POOL_SIZE: usize = 300;

/// A pooled connection older than this many milliseconds is not reused.
pub const IDLE_TIMEOUT_MS: u64 = 500;

/// One resident connection and the time it was last returned to the pool.
pub struct PooledConnection<C> {
    pub conn: C,
    pub last_used: u64,
}

/// Milliseconds elapsed since `last_used` at time `now` (zero if the
/// reading went backwards).
pub open spec fn age(last_used: u64, now: u64) -> int {
    if now >= last_used {
        now - last_used
    } else {
        0
    }
}

/// The entry is younger than the idle threshold at time `now`.
pub open spec fn is_fresh<C>(e: PooledConnection<C>, now: u64) -> bool {
    age(e.last_used, now) < IDLE_TIMEOUT_MS
}

/// The entry may be handed out or kept: it is fresh and the probe's
/// contract allows the answer "alive" for it.
pub open spec fn is_usable<C, F: Fn(&C) -> bool>(e: PooledConnection<C>, now: u64, probe: F) -> bool {
    is_fresh(e, now) && probe.ensures((&e.conn,), true)
}

/// The entry is discarded: it is stale, or the probe's contract allows the
/// answer "dead" for it.
pub open spec fn is_rejected<C, F: Fn(&C) -> bool>(e: PooledConnection<C>, now: u64, probe: F) -> bool {
    !is_fresh(e, now) || probe.ensures((&e.conn,), false)
}

fn fresh_at<C>(e: &PooledConnection<C>, now: u64) -> (r: bool)
    ensures
        r == is_fresh(*e, now),
{
    if now >= e.last_used {
        now - e.last_used < IDLE_TIMEOUT_MS
    } else {
        true
    }
}

/// The entries of `s` whose flag in `keep` is set, in their order.
pub open spec fn kept_of<C>(s: Seq<PooledConnection<C>>, keep: Seq<bool>) -> Seq<PooledConnection<C>>
    decreases s.len(),
{
    if s.len() == 0 || keep.len() == 0 {
        Seq::empty()
    } else {
        let rest = kept_of(s.drop_last(), keep.drop_last());
        if keep.last() {
            rest.push(s.last())
        } else {
            rest
        }
    }
}

proof fn lemma_kept_of_len<C>(s: Seq<PooledConnection<C>>, keep: Seq<bool>)
    ensures
        kept_of(s, keep).len() <= s.len(),
    decreases s.len(),
{
    if s.len() != 0 && keep.len() != 0 {
        lemma_kept_of_len(s.drop_last(), keep.drop_last());
    }
}

/// Outcome of a non-blocking one-byte peek on a connection.
#[derive(PartialEq, Eq, Structural, Clone, Copy)]
pub enum PeekOutcome {
    /// The read returned this many bytes.
    Read(usize),
    /// Nothing to read yet.
    WouldBlock,
    /// Any other error.
    Failed,
}

/// Liveness from a peek: zero bytes means the peer closed the connection,
/// would-block means it is idle and alive, any other error means it is gone;
/// data waiting (not expected) still means alive.
pub fn peek_means_alive(outcome: PeekOutcome) -> (alive: bool)
    ensures
        alive == match outcome {
            PeekOutcome::Read(n) => n > 0,
            PeekOutcome::WouldBlock => true,
            PeekOutcome::Failed => false,
        },
{
    match outcome {
        PeekOutcome::Read(n) => n > 0,
        PeekOutcome::WouldBlock => true,
        PeekOutcome::Failed => false,
    }
}

/// Connection pool: reuse from the front, return to the back.
pub struct ConnectionPool<C> {
    queue: VecDeque<PooledConnection<C>>,
}

impl<C> View for ConnectionPool<C> {
    type V = Seq<PooledConnection<C>>;

    closed spec fn view(&self) -> Seq<PooledConnection<C>> {
        self.queue@
    }
}

impl<C> ConnectionPool<C> {
    /// The pool holds no more than its capacity.
    pub open spec fn wf(&self) -> bool {
        self@.len() <= MAX_POOL_SIZE
    }

    /// An empty pool.
    pub fn new() -> (p: Self)
        ensures
            p@ == Seq::<PooledConnection<C>>::empty(),
            p.wf(),
    {
        ConnectionPool { queue: VecDeque::new() }
    }

    /// Number of resident connections.
    pub fn len(&self) -> (n: usize)
        ensures
            n == self@.len(),
    {
        self.queue.len()
    }

    /// Takes the first usable connection from the front of the pool.
    ///
    /// Entries in front of it that are stale or fail the probe are dropped.
    /// `None` means the pool ran empty and the caller opens a new connection.
    pub fn acquire<F: Fn(&C) -> bool>(&mut self, now: u64, probe: &F) -> (r: Option<C>)
        requires
            old(self).wf(),
            forall|c: &C| probe.requires((c,)),
        ensures
            final(self).wf(),
            match r {
                Some(c) => exists|k: int|
                    0 <= k < old(self)@.len()
                    && old(self)@[k].conn == c
                    && is_usable(old(self)@[k], now, *probe)
                    && final(self)@ == old(self)@.subrange(k + 1, old(self)@.len() as int)
                    && forall|j: int| 0 <= j < k ==> is_rejected(#[trigger] old(self)@[j], now, *probe),
                None => final(self)@.len() == 0
                    && forall|j: int| 0 <= j < old(self)@.len() ==> is_rejected(#[trigger] old(self)@[j], now, *probe),
            },
    {
        let ghost start = self@;
        let ghost mut dropped: int = 0;
        loop
            invariant
                0 <= dropped <= start.len(),
                start == old(self)@,
                start.len() <= MAX_POOL_SIZE,
                self@ == start.subrange(dropped, start.len() as int),
                forall|c: &C| probe.requires((c,)),
                forall|j: int| 0 <= j < dropped ==> is_rejected(#[trigger] start[j], now, *probe),
            decreases start.len() - dropped,
        {
            match self.queue.pop_front() {
                Some(pooled) => {
                    assert(pooled == start[dropped]);
                    let fresh = fresh_at(&pooled, now);
                    let alive = if fresh {
                        probe(&pooled.conn)
                    } else {
                        false
                    };
                    if alive {
                        assert(self@ == start.subrange(dropped + 1, start.len() as int));
                        assert(is_usable(start[dropped], now, *probe));
                        return Some(pooled.conn);
                    }
                    assert(is_rejected(start[dropped], now, *probe));
                    proof {
                        dropped = dropped + 1;
                    }
                },
                None => {
                    assert(dropped == start.len());
                    return None;
                },
            }
        }
    }

    /// Returns a connection to the back of the pool, stamped with `now`.
    ///
    /// At capacity the connection is not kept: it is dropped, which closes it.
    pub fn release(&mut self, conn: C, now: u64) -> (kept: bool)
        requires
            old(self).wf(),
        ensures
            final(self).wf(),
            kept == (old(self)@.len() < MAX_POOL_SIZE),
            kept ==> final(self)@ == old(self)@.push(PooledConnection { conn, last_used: now }),
            !kept ==> final(self)@ == old(self)@,
    {
        if self.queue.len() < MAX_POOL_SIZE {
            self.queue.push_back(PooledConnection { conn, last_used: now });
            true
        } else {
            false
        }
    }

    /// Health sweep: keeps, in order, only the entries that are fresh at `now`
    /// and pass the probe; returns how many were removed.
    pub fn sweep<F: Fn(&C) -> bool>(&mut self, now: u64, probe: &F) -> (removed: usize)
        requires
            old(self).wf(),
            forall|c: &C| probe.requires((c,)),
        ensures
            final(self).wf(),
            removed == old(self)@.len() - final(self)@.len(),
            exists|keep: Seq<bool>|
                keep.len() == old(self)@.len()
                && final(self)@ == kept_of(old(self)@, keep)
                && forall|i: int| 0 <= i < keep.len() ==> {
                    &&& #[trigger] keep[i] ==> is_usable(old(self)@[i], now, *probe)
                    &&& !keep[i] ==> is_rejected(old(self)@[i], now, *probe)
                },
    {
        let ghost start = self@;
        let ghost mut keep: Seq<bool> = Seq::empty();
        let n = self.queue.len();
        let mut survivors: VecDeque<PooledConnection<C>> = VecDeque::new();
        let mut i: usize = 0;
        while i < n
            invariant
                start == old(self)@,
                n == start.len(),
                n <= MAX_POOL_SIZE,
                i <= n,
                keep.len() == i,
                self.queue@ == start.subrange(i as int, n as int),
                survivors@ == kept_of(start.subrange(0, i as int), keep),
                forall|c: &C| probe.requires((c,)),
                forall|j: int| 0 <= j < keep.len() ==> {
                    &&& #[trigger] keep[j] ==> is_usable(start[j], now, *probe)
                    &&& !keep[j] ==> is_rejected(start[j], now, *probe)
                },
            decreases n - i,
        {
            let ghost prefix = start.subrange(0, i as int);
            let pooled = self.queue.pop_front().unwrap();
            assert(pooled == start[i as int]);
            let fresh = fresh_at(&pooled, now);
            let alive = if fresh {
                probe(&pooled.conn)
            } else {
                false
            };
            assert(start.subrange(0, i + 1).drop_last() =~= prefix);
            assert(start.subrange(0, i + 1).last() == pooled);
            if alive {
                survivors.push_back(pooled);
            }
            proof {
                let old_keep = keep;
                keep = keep.push(alive);
                assert(keep.drop_last() =~= old_keep);
            }
            i = i + 1;
        }
        assert(start.subrange(0, n as int) =~= start);
        proof {
            lemma_kept_of_len(start, keep);
        }
        self.queue = survivors;
        assert(self@ == kept_of(start, keep));
        n - self.queue.len()
    }

    /// Drops every resident connection and returns how many there were.
    pub fn clear(&mut self) -> (n: usize)
        ensures
            n == old(self)@.len(),
            final(self)@.len() == 0,
            final(self).wf(),
    {
        let n = self.queue.len();
        self.queue.clear();
        n
    }
}

} // verus!
