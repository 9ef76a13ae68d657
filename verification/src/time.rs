//! A timer that measures the time since it started and between ticks.
use std::time::{Duration, Instant};
use vstd::prelude::*;

verus! {

#[verifier::external_type_specification]
#[verifier::external_body]
pub struct ExInstant(Instant);

/// std's `Clone` for `Instant`, a `Copy` type: the clone is the same instant.
pub assume_specification[ <Instant as Clone>::clone ](i: &Instant) -> (r: Instant)
    ensures
        r == *i,
;

/// The largest number of nanoseconds a `Duration` holds: `u64::MAX` whole
/// seconds and 999_999_999 nanoseconds.
pub open spec fn max_duration_nanos() -> int {
    u64::MAX * 1_000_000_000 + 999_999_999
}

/// std's `Duration::new(secs, nanos)`; the `Duration` it makes is a function
/// of its arguments alone.
pub uninterp spec fn duration_new(secs: u64, nanos: u32) -> Duration;

/// std's `Instant::now`. The instant depends on the clock; nothing is stated.
#[verifier::external_body]
fn instant_now() -> (r: Instant) {
    Instant::now()
}

/// std's `Instant::elapsed`: the time since `first`, read from the clock;
/// nothing is stated of it.
#[verifier::external_body]
fn elapsed_since(first: &Instant) -> (r: Duration) {
    first.elapsed()
}

/// std's `Duration::as_nanos`: a `Duration` holds at most `u64::MAX` seconds
/// and fewer than a billion further nanoseconds, so its total nanoseconds
/// are at most `max_duration_nanos()`.
#[verifier::external_body]
fn duration_as_nanos(d: Duration) -> (r: u128)
    ensures
        r <= max_duration_nanos(),
{
    d.as_nanos()
}

/// std's `Duration::new`, which panics only when `nanos` carries over into a
/// seconds count that overflows; below a billion nanoseconds nothing carries.
#[verifier::external_body]
fn make_duration(secs: u64, nanos: u32) -> (r: Duration)
    requires
        nanos < 1_000_000_000,
    ensures
        r == duration_new(secs, nanos),
{
    Duration::new(secs, nanos)
}

/// The `Duration` of `nanos` nanoseconds.
pub open spec fn duration_of_nanos(nanos: int) -> Duration {
    duration_new((nanos / 1_000_000_000) as u64, (nanos % 1_000_000_000) as u32)
}

/// Splits `nanos` into whole seconds and the nanoseconds left over.
pub fn duration_from_nanos(nanos: u128) -> (r: Duration)
    requires
        nanos <= max_duration_nanos(),
    ensures
        r == duration_of_nanos(nanos as int),
{
    let secs = nanos / 1_000_000_000;
    let sub = nanos % 1_000_000_000;
    make_duration(secs as u64, sub as u32)
}

/// Measures the time since it was made, and the time between ticks.
#[derive(Debug, Clone)]
pub struct TickTimer {
    first: Instant,
    last_elapsed: u128,
}

impl TickTimer {
    /// The time from the start to the last tick, in nanoseconds.
    pub closed spec fn last_elapsed_nanos(&self) -> int {
        self.last_elapsed as int
    }

    /// The instant the timer started.
    pub closed spec fn start(&self) -> Instant {
        self.first
    }

    pub closed spec fn wf(&self) -> bool {
        self.last_elapsed <= max_duration_nanos()
    }

    /// The time since the timer started.
    pub fn total_elapsed(&self) -> (r: Duration) {
        elapsed_since(&self.first)
    }

    /// The time since the last tick (or since the start, at the first tick).
    /// The clock is monotonic, so the time read now is never before the last
    /// tick; were it so, the tick would last zero and stay where it was.
    pub fn tick(&mut self) -> (r: Duration)
        requires
            old(self).wf(),
        ensures
            final(self).wf(),
            final(self).start() == old(self).start(),
            final(self).last_elapsed_nanos() >= old(self).last_elapsed_nanos(),
            r == duration_of_nanos(final(self).last_elapsed_nanos() - old(self).last_elapsed_nanos()),
    {
        let elapsed = duration_as_nanos(elapsed_since(&self.first));
        self.tick_at(elapsed)
    }

    /// A tick at `elapsed_nanos` nanoseconds after the start: the time since
    /// the last tick, which moves to `elapsed_nanos`. A time before the last
    /// tick makes a tick of zero that leaves the last tick where it was.
    pub fn tick_at(&mut self, elapsed_nanos: u128) -> (r: Duration)
        requires
            old(self).wf(),
            elapsed_nanos <= max_duration_nanos(),
        ensures
            final(self).wf(),
            final(self).start() == old(self).start(),
            elapsed_nanos >= old(self).last_elapsed_nanos() ==> final(self).last_elapsed_nanos()
                == elapsed_nanos,
            elapsed_nanos < old(self).last_elapsed_nanos() ==> final(self).last_elapsed_nanos()
                == old(self).last_elapsed_nanos(),
            r == duration_of_nanos(final(self).last_elapsed_nanos() - old(self).last_elapsed_nanos()),
    {
        let elapsed = if elapsed_nanos >= self.last_elapsed {
            elapsed_nanos
        } else {
            self.last_elapsed
        };
        let tick_duration = elapsed - self.last_elapsed;
        self.last_elapsed = elapsed;
        duration_from_nanos(tick_duration)
    }
}

impl Default for TickTimer {
    /// A timer that starts now and has not ticked.
    fn default() -> (r: Self)
        ensures
            r.wf(),
            r.last_elapsed_nanos() == 0,
    {
        Self { first: instant_now(), last_elapsed: 0 }
    }
}

/// The lengths, in nanoseconds, of the ticks that take a timer through the
/// states `ts`: the `i`-th is the time from the state `i` to the state
/// `i + 1`.
pub open spec fn spec_tick_lengths(ts: Seq<TickTimer>) -> Seq<int> {
    Seq::new(
        (if ts.len() == 0 { 0 } else { ts.len() - 1 }) as nat,
        |i: int| ts[i + 1].last_elapsed_nanos() - ts[i].last_elapsed_nanos(),
    )
}

/// The sum of `lengths`.
pub open spec fn spec_total(lengths: Seq<int>) -> int
    decreases lengths.len(),
{
    if lengths.len() == 0 {
        0
    } else {
        spec_total(lengths.drop_last()) + lengths.last()
    }
}

/// The ticks of a timer add up: over any number of ticks, no time between
/// them is lost or counted twice. Each tick returns the `Duration` of its
/// length, none is negative, and the lengths sum to the time from the first
/// state to the last; from a fresh timer, that is the time of the last
/// tick.
pub proof fn lemma_ticks_add_up(ts: Seq<TickTimer>, durations: Seq<Duration>)
    requires
        ts.len() >= 1,
        durations.len() == ts.len() - 1,
        forall|i: int|
            0 <= i < ts.len() - 1 ==> #[trigger] ts[i + 1].last_elapsed_nanos() >= ts[i].last_elapsed_nanos()
                && durations[i] == duration_of_nanos(ts[i + 1].last_elapsed_nanos() - ts[i].last_elapsed_nanos()),
    ensures
        forall|i: int|
            0 <= i < durations.len() ==> #[trigger] durations[i] == duration_of_nanos(spec_tick_lengths(ts)[i])
                && spec_tick_lengths(ts)[i] >= 0,
        spec_total(spec_tick_lengths(ts)) == ts.last().last_elapsed_nanos() - ts[0].last_elapsed_nanos(),
        ts[0].last_elapsed_nanos() == 0 ==> spec_total(spec_tick_lengths(ts)) == ts.last().last_elapsed_nanos(),
    decreases ts.len(),
{
    if ts.len() > 1 {
        let prev = ts.drop_last();
        lemma_ticks_add_up(prev, durations.drop_last());
        assert(spec_tick_lengths(ts).drop_last() =~= spec_tick_lengths(prev));
        assert(ts[ts.len() - 2 + 1] == ts.last());
    } else {
        assert(spec_tick_lengths(ts) =~= Seq::<int>::empty());
    }
    assert forall|i: int| 0 <= i < durations.len() implies #[trigger] durations[i] == duration_of_nanos(
        spec_tick_lengths(ts)[i],
    ) && spec_tick_lengths(ts)[i] >= 0 by {
        assert(ts[i + 1].last_elapsed_nanos() >= ts[i].last_elapsed_nanos());
    }
}

} // verus!
