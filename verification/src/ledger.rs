use vstd::prelude::*;

verus! {

/// Which aggregate usage counter an update addresses.
#[derive(Clone, Copy, Debug, PartialEq, Eq, Structural)]
pub enum Counter {
    RequestsFufilled,
    Instructions,
    RuntimeNs,
    BytesReturned,
    StatusHits,
}

/// The process-wide usage ledger: five independent unsigned counters,
/// all zero at startup. The ledger is advisory observability data and is
/// never consulted for admission decisions; counters wrap around at the
/// largest representable value, which is an accepted non-goal.
pub struct ServerCounts {
    pub requests_fufilled: u64,
    pub instructions: u64,
    pub runtime_ns: u64,
    pub bytes_returned: u64,
    pub status_hits: u64,
}

/// A counter update: the old value plus the amount, wrapping around at
/// the largest `u64`.
pub open spec fn spec_counter_add(a: u64, amount: u64) -> u64 {
    vstd::wrapping::u64_specs::wrapping_add(a, amount)
}

/// The current value of one counter of a ledger.
pub open spec fn spec_counter_value(c: ServerCounts, which: Counter) -> u64 {
    match which {
        Counter::RequestsFufilled => c.requests_fufilled,
        Counter::Instructions => c.instructions,
        Counter::RuntimeNs => c.runtime_ns,
        Counter::BytesReturned => c.bytes_returned,
        Counter::StatusHits => c.status_hits,
    }
}

impl ServerCounts {
    /// A fresh ledger with every counter at zero.
    pub fn new() -> (r: ServerCounts)
        ensures
            r.requests_fufilled == 0,
            r.instructions == 0,
            r.runtime_ns == 0,
            r.bytes_returned == 0,
            r.status_hits == 0,
    {
        ServerCounts {
            requests_fufilled: 0,
            instructions: 0,
            runtime_ns: 0,
            bytes_returned: 0,
            status_hits: 0,
        }
    }

    /// Add `amount` to one counter, wrapping on overflow, and return the
    /// new total. Every other counter is left untouched: the counters are
    /// updated independently.
    pub fn increment(&mut self, which: Counter, amount: u64) -> (new_total: u64)
        ensures
            spec_counter_value(*final(self), which) == spec_counter_add(
                spec_counter_value(*old(self), which),
                amount,
            ),
            new_total == spec_counter_value(*final(self), which),
            forall|other: Counter|
                other != which ==> spec_counter_value(*final(self), other) == spec_counter_value(
                    *old(self),
                    other,
                ),
    {
        match which {
            Counter::RequestsFufilled => {
                self.requests_fufilled = self.requests_fufilled.wrapping_add(amount);
                self.requests_fufilled
            },
            Counter::Instructions => {
                self.instructions = self.instructions.wrapping_add(amount);
                self.instructions
            },
            Counter::RuntimeNs => {
                self.runtime_ns = self.runtime_ns.wrapping_add(amount);
                self.runtime_ns
            },
            Counter::BytesReturned => {
                self.bytes_returned = self.bytes_returned.wrapping_add(amount);
                self.bytes_returned
            },
            Counter::StatusHits => {
                self.status_hits = self.status_hits.wrapping_add(amount);
                self.status_hits
            },
        }
    }

    /// Read every counter, in the order: requests fulfilled, instructions,
    /// engine runtime in nanoseconds, bytes returned, status hits.
    pub fn snapshot(&self) -> (r: (u64, u64, u64, u64, u64))
        ensures
            r.0 == self.requests_fufilled,
            r.1 == self.instructions,
            r.2 == self.runtime_ns,
            r.3 == self.bytes_returned,
            r.4 == self.status_hits,
    {
        (
            self.requests_fufilled,
            self.instructions,
            self.runtime_ns,
            self.bytes_returned,
            self.status_hits,
        )
    }
}

/// Law: a counter update never decreases the counter as long as the true
/// total still fits in the counter's width, so under any sequence of
/// updates short of wraparound the counters are monotonically
/// non-decreasing.
pub proof fn lemma_counter_monotonic(a: u64, amount: u64)
    requires
        a + amount <= u64::MAX,
    ensures
        spec_counter_add(a, amount) >= a,
        spec_counter_add(a, amount) == a + amount,
{
}

/// The sum of a sequence of update deltas.
pub open spec fn spec_sum(deltas: Seq<u64>) -> int
    decreases deltas.len(),
{
    if deltas.len() == 0 {
        0
    } else {
        spec_sum(deltas.drop_last()) + deltas.last()
    }
}

/// The value of one counter after a sequence of updates, applied in
/// order.
pub open spec fn spec_counter_after(start: u64, deltas: Seq<u64>) -> u64
    decreases deltas.len(),
{
    if deltas.len() == 0 {
        start
    } else {
        spec_counter_add(spec_counter_after(start, deltas.drop_last()), deltas.last())
    }
}

/// Law: as long as the true total fits in the counter's width, any
/// sequence of updates of one counter leaves it at the starting value
/// plus the sum of the per-call deltas — so the counter never decreases,
/// and when no calls overlap the final value accounts for every delta
/// exactly once.
pub proof fn lemma_counter_updates_sum(start: u64, deltas: Seq<u64>)
    requires
        start + spec_sum(deltas) <= u64::MAX,
    ensures
        spec_counter_after(start, deltas) == start + spec_sum(deltas),
        spec_counter_after(start, deltas) >= start,
    decreases deltas.len(),
{
    lemma_sum_nonneg(deltas);
    if deltas.len() > 0 {
        lemma_sum_nonneg(deltas.drop_last());
        lemma_counter_updates_sum(start, deltas.drop_last());
    }
}

/// Law: counter updates compose. When one counter goes from `c0` through
/// two updates — the shape the metering contracts state for two
/// sequential served requests — and the true total fits the counter, the
/// final value accounts for both deltas exactly: an instance of
/// `lemma_counter_updates_sum` at the contracts' own granularity.
pub proof fn lemma_counter_add_composes(c0: u64, d1: u64, d2: u64)
    requires
        c0 + d1 + d2 <= u64::MAX,
    ensures
        spec_counter_add(spec_counter_add(c0, d1), d2) == c0 + d1 + d2,
        spec_counter_add(spec_counter_add(c0, d1), d2) >= spec_counter_add(c0, d1) >= c0,
{
}

/// The deltas are unsigned, so their sum is never negative.
pub proof fn lemma_sum_nonneg(deltas: Seq<u64>)
    ensures
        spec_sum(deltas) >= 0,
    decreases deltas.len(),
{
    if deltas.len() > 0 {
        lemma_sum_nonneg(deltas.drop_last());
    }
}

} // verus!
