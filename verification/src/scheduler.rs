//! The redraw scheduler: coalescing of redraw and animation-frame requests
//! into a single earliest deadline, and the commit animation gate.

use vstd::prelude::*;

verus! {

/// Minimum spacing between renders, in milliseconds: a redraw request is
/// debounced by this much.
pub const REDRAW_DEBOUNCE_MS: u64 = 1;

/// Spacing of commit animation ticks, in milliseconds.
pub const COMMIT_TICK_MS: u64 = 50;

/// The scheduler's state: at most one pending deadline, in milliseconds on
/// a monotonic clock.
pub struct FrameScheduler {
    pub next_deadline: Option<u64>,
}

impl FrameScheduler {
    pub fn new() -> (r: FrameScheduler)
        ensures
            r.next_deadline is None,
    {
        FrameScheduler { next_deadline: None }
    }

    /// A new request: the pending deadline becomes the earlier of the two.
    pub fn schedule(&mut self, deadline: u64)
        ensures
            final(self).next_deadline == Some(
                match old(self).next_deadline {
                    Some(d) => if d < deadline {
                        d
                    } else {
                        deadline
                    },
                    None => deadline,
                },
            ),
    {
        let adopted = match self.next_deadline {
            Some(d) => if d < deadline {
                d
            } else {
                deadline
            },
            None => deadline,
        };
        self.next_deadline = Some(adopted);
    }

    /// How long to wait for the pending deadline: zero once it has passed,
    /// nothing when none is pending.
    pub fn wait_duration(&self, now: u64) -> (r: Option<u64>)
        ensures
            r == match self.next_deadline {
                Some(d) => Some(if d > now {
                    (d - now) as u64
                } else {
                    0u64
                }),
                None => None::<u64>,
            },
    {
        match self.next_deadline {
            Some(d) => Some(if d > now {
                d - now
            } else {
                0
            }),
            None => None,
        }
    }

    /// The deadline fired: one redraw is emitted and the deadline clears.
    pub fn fire(&mut self)
        ensures
            final(self).next_deadline is None,
    {
        self.next_deadline = None;
    }
}

/// The deadline a plain redraw request posts.
pub fn redraw_deadline(now: u64) -> (r: u64)
    requires
        now + REDRAW_DEBOUNCE_MS <= u64::MAX,
    ensures
        r == now + REDRAW_DEBOUNCE_MS,
{
    now + REDRAW_DEBOUNCE_MS
}

/// The deadline an animation frame request posts.
pub fn frame_deadline(now: u64, delay: u64) -> (r: u64)
    requires
        now + delay <= u64::MAX,
    ensures
        r == now + delay,
{
    now + delay
}

/// Gate for the commit animation ticker: `start` says whether a ticker must
/// begin (none was running); `stop` lets it wind down.
pub struct CommitAnimation {
    pub running: bool,
}

impl CommitAnimation {
    pub fn new() -> (r: CommitAnimation)
        ensures
            !r.running,
    {
        CommitAnimation { running: false }
    }

    pub fn start(&mut self) -> (begin: bool)
        ensures
            final(self).running,
            begin == !old(self).running,
    {
        let begin = !self.running;
        self.running = true;
        begin
    }

    pub fn stop(&mut self)
        ensures
            !final(self).running,
    {
        self.running = false;
    }
}

} // verus!
