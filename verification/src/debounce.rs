//! Debouncing of repeated key presses.
//!
//! Every global shortcut of the launcher ignores a press that comes too soon
//! after the last press it accepted. Time is a count of milliseconds on a
//! monotonic clock that the caller reads.
use vstd::prelude::*;

verus! {

/// Hold-back interval of the launcher, switch and overlay shortcuts.
pub const SHORTCUT_DEBOUNCE_MS: u64 = 300;

/// Hold-back interval of the clipboard shortcuts.
pub const CLIPBOARD_DEBOUNCE_MS: u64 = 500;

/// Remembers when a shortcut last fired.
///
/// A shortcut that has never fired is never held back: it starts out as if its
/// last accepted press lay further back than any interval in use.
#[derive(PartialEq, Eq, Structural, Debug, Clone, Copy)]
pub struct Debouncer {
    pub interval_ms: u64,
    pub last_fire_ms: Option<u64>,
}

/// Milliseconds from `earlier` to `now`; zero when `earlier` is later.
pub open spec fn elapsed_ms(now: u64, earlier: u64) -> int {
    if now >= earlier {
        now - earlier
    } else {
        0
    }
}

impl Debouncer {
    /// Whether a press at `now` is accepted.
    pub open spec fn accepts(self, now: u64) -> bool {
        match self.last_fire_ms {
            None => true,
            Some(last) => elapsed_ms(now, last) >= self.interval_ms,
        }
    }

    /// The debouncer after a press at `now`.
    pub open spec fn after(self, now: u64) -> Debouncer {
        if self.accepts(now) {
            Debouncer { interval_ms: self.interval_ms, last_fire_ms: Some(now) }
        } else {
            self
        }
    }

    /// A debouncer that has not fired yet.
    pub fn new(interval_ms: u64) -> (d: Debouncer)
        ensures
            d.interval_ms == interval_ms,
            d.last_fire_ms is None,
    {
        Debouncer { interval_ms, last_fire_ms: None }
    }

    /// Whether a press at `now` would be accepted; changes nothing.
    pub fn would_accept(&self, now: u64) -> (r: bool)
        ensures
            r == self.accepts(now),
    {
        match self.last_fire_ms {
            None => true,
            Some(last) => {
                let elapsed = if now >= last { now - last } else { 0 };
                elapsed >= self.interval_ms
            },
        }
    }

    /// Registers a press at `now`; returns whether the press is accepted.
    /// An accepted press becomes the new reference point; a held-back press
    /// changes nothing.
    pub fn trigger(&mut self, now: u64) -> (fired: bool)
        ensures
            fired == old(self).accepts(now),
            *final(self) == old(self).after(now),
    {
        let fired = self.would_accept(now);
        if fired {
            self.last_fire_ms = Some(now);
        }
        fired
    }
}

/// The debouncer after presses at each time in `times`, in order.
pub open spec fn replay(d: Debouncer, times: Seq<u64>) -> Debouncer
    decreases times.len(),
{
    if times.len() == 0 {
        d
    } else {
        replay(d, times.drop_last()).after(times.last())
    }
}

/// Whether the press at index `i` of `times` is accepted.
pub open spec fn fires_at(d: Debouncer, times: Seq<u64>, i: int) -> bool {
    replay(d, times.take(i)).accepts(times[i])
}

pub open spec fn nondecreasing(times: Seq<u64>) -> bool {
    forall|i: int, j: int| 0 <= i <= j < times.len() ==> times[i] <= times[j]
}

proof fn lemma_replay_keeps_interval(d: Debouncer, times: Seq<u64>)
    ensures
        replay(d, times).interval_ms == d.interval_ms,
    decreases times.len(),
{
    if times.len() > 0 {
        lemma_replay_keeps_interval(d, times.drop_last());
    }
}

/// After the press at `i` is accepted, the remembered time of every later
/// state lies between that press and the latest press so far.
proof fn lemma_last_fire_after(d: Debouncer, times: Seq<u64>, i: int, k: int)
    requires
        nondecreasing(times),
        0 <= i < k <= times.len(),
        fires_at(d, times, i),
    ensures
        replay(d, times.take(k)).last_fire_ms matches Some(l) && times[i] <= l <= times[k - 1],
    decreases k - i,
{
    let pre = times.take(k);
    assert(pre.drop_last() =~= times.take(k - 1));
    if k == i + 1 {
        assert(pre.last() == times[i]);
    } else {
        lemma_last_fire_after(d, times, i, k - 1);
        assert(pre.last() == times[k - 1]);
    }
}

/// Two accepted presses of one shortcut, on a clock that does not run
/// backwards, lie at least the debounce interval apart.
pub proof fn law_accepted_presses_are_spaced(d: Debouncer, times: Seq<u64>, i: int, j: int)
    requires
        nondecreasing(times),
        0 <= i < j < times.len(),
        fires_at(d, times, i),
        fires_at(d, times, j),
    ensures
        times[j] - times[i] >= d.interval_ms,
{
    lemma_last_fire_after(d, times, i, j);
    lemma_replay_keeps_interval(d, times.take(j));
}

/// A press that comes at least the interval after the last accepted press is
/// accepted, and so is the first press of a shortcut.
pub proof fn law_late_press_is_accepted(d: Debouncer, now: u64)
    requires
        d.last_fire_ms matches Some(l) ==> now >= l + d.interval_ms,
    ensures
        d.accepts(now),
        d.after(now).last_fire_ms == Some(now),
{
}

/// A press is held back exactly when it comes less than the interval after
/// the last accepted press (a press read before it counts as coming at once); a
/// held-back press leaves the debouncer as it was, an accepted one keeps the
/// interval and remembers the press.
pub proof fn law_hold_back_rule(d: Debouncer, now: u64)
    ensures
        d.last_fire_ms is None ==> d.accepts(now),
        forall|l: u64|
            d.last_fire_ms == Some(l) && now >= l ==> (d.accepts(now) <==> now - l >= d.interval_ms),
        forall|l: u64|
            d.last_fire_ms == Some(l) && now < l ==> (d.accepts(now) <==> d.interval_ms == 0),
        !d.accepts(now) ==> d.after(now) == d,
        d.accepts(now) ==> d.after(now).interval_ms == d.interval_ms && d.after(
            now,
        ).last_fire_ms == Some(now),
{
}

} // verus!
