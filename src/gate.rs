use vstd::prelude::*;

verus! {

/// The least time, in milliseconds, between two fetches that are let through.
pub const MIN_INTERVAL_MS: u64 = 1000;

/// When a fetch that arrives at `now` may be sent, if nothing is let
/// through before `next`.
pub open spec fn dispatch_time(next: u64, now: u64) -> u64 {
    if now >= next {
        now
    } else {
        next
    }
}

/// The earliest time for the following fetch, once one is sent at `sent`.
pub open spec fn next_after(sent: u64) -> u64 {
    if sent <= u64::MAX - MIN_INTERVAL_MS {
        (sent + MIN_INTERVAL_MS) as u64
    } else {
        u64::MAX
    }
}

/// The times at which fetches arriving at `arrivals`, one after another,
/// are sent by a gate that lets nothing through before `next`.
pub open spec fn dispatch_times(next: u64, arrivals: Seq<u64>) -> Seq<u64>
    decreases arrivals.len(),
{
    if arrivals.len() == 0 {
        Seq::empty()
    } else {
        let sent = dispatch_time(next, arrivals[0]);
        seq![sent] + dispatch_times(next_after(sent), arrivals.drop_first())
    }
}

/// Paces fetches to the registry: it holds the earliest time at which the
/// next fetch may be sent.
pub struct RateGate {
    next_allowed: u64,
}

impl View for RateGate {
    type V = u64;

    closed spec fn view(&self) -> u64 {
        self.next_allowed
    }
}

impl RateGate {
    /// A gate that lets the first fetch through at once.
    pub fn new() -> (r: Self)
        ensures
            r@ == 0,
    {
        RateGate { next_allowed: 0 }
    }

    /// The earliest time at which the next fetch may be sent.
    pub fn next_allowed(&self) -> (r: u64)
        ensures
            r == self@,
    {
        self.next_allowed
    }

    /// Admits a fetch that arrives at `now_ms`: returns the time at which it
    /// may be sent (never before `now_ms`), and moves the earliest time for
    /// the next fetch one interval past it.
    pub fn acquire(&mut self, now_ms: u64) -> (sent: u64)
        ensures
            sent == dispatch_time(old(self)@, now_ms),
            final(self)@ == next_after(sent),
    {
        let sent = if now_ms >= self.next_allowed {
            now_ms
        } else {
            self.next_allowed
        };
        self.next_allowed = sent.saturating_add(MIN_INTERVAL_MS);
        sent
    }
}

/// However many fetches contend for a `RateGate`, each is sent no earlier than it
/// arrived, and each one after the first is sent at least one interval after
/// the one before it; this holds as long as no time reaches the end of the
/// clock's range.
pub proof fn lemma_dispatches_spaced(next: u64, arrivals: Seq<u64>)
    requires
        next as int + MIN_INTERVAL_MS * arrivals.len() <= u64::MAX,
        forall|i: int|
            0 <= i < arrivals.len() ==> #[trigger] arrivals[i] as int + MIN_INTERVAL_MS
                * arrivals.len() <= u64::MAX,
    ensures
        dispatch_times(next, arrivals).len() == arrivals.len(),
        forall|i: int|
            0 <= i < arrivals.len() ==> #[trigger] dispatch_times(next, arrivals)[i] >= arrivals[i],
        forall|i: int|
            0 <= i < arrivals.len() ==> #[trigger] dispatch_times(next, arrivals)[i] >= next,
        forall|i: int|
            0 <= i < arrivals.len() - 1 ==> dispatch_times(next, arrivals)[i] + MIN_INTERVAL_MS
                <= #[trigger] dispatch_times(next, arrivals)[i + 1],
    decreases arrivals.len(),
{
    if arrivals.len() > 0 {
        let sent = dispatch_time(next, arrivals[0]);
        let rest = arrivals.drop_first();
        let n = arrivals.len() as int;
        assert(sent as int + MIN_INTERVAL_MS * n <= u64::MAX) by {
            assert(arrivals[0] as int + MIN_INTERVAL_MS * n <= u64::MAX);
        }
        assert(MIN_INTERVAL_MS * n == MIN_INTERVAL_MS * (n - 1) + MIN_INTERVAL_MS) by (nonlinear_arith);
        assert forall|i: int| 0 <= i < rest.len() implies #[trigger] rest[i] as int + MIN_INTERVAL_MS
            * rest.len() <= u64::MAX by {
            assert(rest[i] == arrivals[i + 1]);
        }
        lemma_dispatches_spaced(next_after(sent), rest);
        let ds = dispatch_times(next, arrivals);
        let tail = dispatch_times(next_after(sent), rest);
        assert(ds == seq![sent] + tail);
        assert forall|i: int| 0 <= i < arrivals.len() implies #[trigger] ds[i] >= arrivals[i] by {
            if i > 0 {
                assert(ds[i] == tail[i - 1]);
                assert(rest[i - 1] == arrivals[i]);
            }
        }
        assert forall|i: int| 0 <= i < arrivals.len() implies #[trigger] ds[i] >= next by {
            if i > 0 {
                assert(ds[i] == tail[i - 1]);
            }
        }
        assert forall|i: int| 0 <= i < arrivals.len() - 1 implies ds[i] + MIN_INTERVAL_MS
            <= #[trigger] ds[i + 1] by {
            assert(ds[i + 1] == tail[i]);
            if i > 0 {
                assert(ds[i] == tail[i - 1]);
            }
        }
    }
}

} // verus!
