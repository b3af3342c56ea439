//! The texture refresh cadence.
//!
//! Time is counted in ticks of a monotonic clock. The texture is rebuilt when
//! more than one quantum (1/30 s) has passed since the last refresh; each
//! refresh moves the refresh time forward by exactly one quantum, never to
//! "now", so irregular frame pacing cannot accumulate drift.
use vstd::prelude::*;
use vstd::wrapping::u32_specs;

verus! {

/// Clock ticks in one second.
pub const TICKS_PER_SECOND: u64 = 3_000_000;

/// Interval between two texture refreshes, one thirtieth of a second.
pub const REFRESH_QUANTUM: u64 = TICKS_PER_SECOND / 30;

/// Frame counter and refresh time of the animated texture.
#[derive(Clone, Copy, Debug, PartialEq, Eq, Structural)]
pub struct FrameState {
    /// Index of the next texture frame to synthesize; wraps at 2^32.
    pub frame_index: u32,
    /// Time of the last refresh; the next one is due once `now` passes
    /// `last_refresh + REFRESH_QUANTUM`.
    pub last_refresh: u64,
}

impl FrameState {
    pub open spec fn deadline(self) -> int {
        self.last_refresh + REFRESH_QUANTUM
    }

    pub open spec fn is_due_spec(self, now: u64) -> bool {
        now - self.last_refresh > REFRESH_QUANTUM
    }

    /// The state after the refresh check at time `now`.
    pub open spec fn after(self, now: u64) -> FrameState {
        if self.is_due_spec(now) {
            FrameState {
                frame_index: u32_specs::wrapping_add(self.frame_index, 1),
                last_refresh: (self.last_refresh + REFRESH_QUANTUM) as u64,
            }
        } else {
            self
        }
    }

    /// The state at start-up, at time `now`.
    pub fn new(now: u64) -> (r: FrameState)
        ensures
            r.frame_index == 0,
            r.last_refresh == now,
    {
        FrameState { frame_index: 0, last_refresh: now }
    }

    /// Whether a refresh is due at time `now`: more than one quantum has
    /// passed since the last one.
    pub fn is_due(&self, now: u64) -> (r: bool)
        ensures
            r == self.is_due_spec(now),
    {
        now > self.last_refresh && now - self.last_refresh > REFRESH_QUANTUM
    }

    /// The refresh check of one frame at time `now`. When a refresh is due,
    /// returns the frame index to synthesize, counts it and moves the refresh
    /// time forward by one quantum; otherwise returns `None` and changes
    /// nothing.
    pub fn tick(&mut self, now: u64) -> (r: Option<u32>)
        ensures
            *final(self) == old(self).after(now),
            r == (if old(self).is_due_spec(now) {
                Some(old(self).frame_index)
            } else {
                None::<u32>
            }),
            final(self).last_refresh >= old(self).last_refresh,
            final(self).last_refresh <= old(self).last_refresh + REFRESH_QUANTUM,
    {
        if self.is_due(now) {
            let frame = self.frame_index;
            self.frame_index = self.frame_index.wrapping_add(1);
            self.last_refresh = self.last_refresh + REFRESH_QUANTUM;
            Some(frame)
        } else {
            None
        }
    }
}

/// The state after refresh checks at `start + q`, `start + 2q`, ...,
/// `start + n * q`, one quantum `q` apart, beginning from `s`.
pub open spec fn after_steady_checks(s: FrameState, start: u64, n: nat) -> FrameState
    decreases n,
{
    if n == 0 {
        s
    } else {
        after_steady_checks(s, start, (n - 1) as nat).after((start + n * REFRESH_QUANTUM) as u64)
    }
}

/// Checks one quantum apart, from a state created at `start`: the first
/// check finds exactly one quantum elapsed, which does not exceed it, and
/// every later check refreshes once. After `n` checks the frame index is
/// `n - 1` and the refresh time is exactly `start + (n - 1)` quanta: each
/// refresh adds one to the index and one quantum to the refresh time, with no
/// drift.
pub proof fn lemma_steady_cadence(start: u64, n: nat)
    requires
        n >= 1,
        start + n * REFRESH_QUANTUM <= u64::MAX,
        n - 1 <= u32::MAX,
    ensures
        after_steady_checks(FrameState { frame_index: 0, last_refresh: start }, start, n)
            == (FrameState {
            frame_index: (n - 1) as u32,
            last_refresh: (start + (n - 1) * REFRESH_QUANTUM) as u64,
        }),
    decreases n,
{
    let s0 = FrameState { frame_index: 0, last_refresh: start };
    if n == 1 {
        assert(after_steady_checks(s0, start, 0) == s0);
        assert(1 * REFRESH_QUANTUM == REFRESH_QUANTUM);
        assert(0 * REFRESH_QUANTUM == 0);
        assert(!s0.is_due_spec((start + REFRESH_QUANTUM) as u64));
        assert(after_steady_checks(s0, start, 1) == s0);
    } else {
        let m = (n - 1) as nat;
        assert(start + m * REFRESH_QUANTUM <= start + n * REFRESH_QUANTUM) by (nonlinear_arith)
            requires
                m < n,
        ;
        lemma_steady_cadence(start, m);
        assert(n * REFRESH_QUANTUM == m * REFRESH_QUANTUM + REFRESH_QUANTUM) by (nonlinear_arith)
            requires
                m == n - 1,
        ;
        assert((m - 1) * REFRESH_QUANTUM + REFRESH_QUANTUM == m * REFRESH_QUANTUM) by (nonlinear_arith)
            requires
                m >= 1,
        ;
        let prev = after_steady_checks(s0, start, m);
        let now = (start + n * REFRESH_QUANTUM) as u64;
        assert(prev.is_due_spec(now));
        assert(after_steady_checks(s0, start, n) == prev.after(now));
        assert(prev.frame_index == (m - 1) as u32);
        assert(u32_specs::wrapping_add(prev.frame_index, 1) == m as u32);
        assert(prev.after(now).last_refresh == (start + m * REFRESH_QUANTUM) as u64);
    }
}

} // verus!
