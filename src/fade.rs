//! Timing of the fade-to-black overlay shown on an output before it is
//! powered off. Times are milliseconds on a monotonic clock.

use vstd::prelude::*;

verus! {

/// How long a fade to black lasts, in ms.
pub const FADE_TIME: u64 = 2000;

/// The time that has passed from `started` to `now`; none where the clock
/// reads earlier than the start.
pub open spec fn elapsed_since(started: u64, now: u64) -> nat {
    if now >= started {
        (now - started) as nat
    } else {
        0
    }
}

/// How far a fade started at `started` has come at `now`: the time elapsed,
/// up to the whole duration.
pub open spec fn fade_progress(started: u64, now: u64) -> nat {
    if elapsed_since(started, now) < FADE_TIME {
        elapsed_since(started, now)
    } else {
        FADE_TIME as nat
    }
}

/// Whether a fade started at `started` has run its course at `now`.
pub open spec fn fade_finished(started: u64, now: u64) -> bool {
    elapsed_since(started, now) > FADE_TIME
}

/// The state of the overlay of one output while it fades.
#[derive(Clone, Copy, Debug, PartialEq, Eq, Structural)]
pub struct FadeBlackSurface {
    /// When the fade began, in ms
    pub started: u64,
    /// Whether the display server has configured the overlay yet; the first
    /// frame is drawn on the first configure.
    pub has_first_configure: bool,
}

impl FadeBlackSurface {
    /// A fade that starts at `now` and has not been configured yet.
    pub fn new(now: u64) -> (r: FadeBlackSurface)
        ensures
            r.started == now,
            !r.has_first_configure,
    {
        FadeBlackSurface { started: now, has_first_configure: false }
    }

    /// The time that has passed since the fade began.
    pub fn elapsed(&self, now: u64) -> (r: u64)
        ensures
            r == elapsed_since(self.started, now),
    {
        if now >= self.started {
            now - self.started
        } else {
            0
        }
    }

    /// Whether the fade has run its course, so that the output goes off.
    pub fn is_done(&self, now: u64) -> (r: bool)
        ensures
            r == fade_finished(self.started, now),
    {
        self.elapsed(now) > FADE_TIME
    }

    /// The point of the fade at which to draw the frame shown at `now`:
    /// the time elapsed, up to the whole duration.
    pub fn update(&self, now: u64) -> (r: u64)
        ensures
            r == fade_progress(self.started, now),
            r <= FADE_TIME,
    {
        let elapsed = self.elapsed(now);
        if elapsed < FADE_TIME {
            elapsed
        } else {
            FADE_TIME
        }
    }

    /// Records a configure of the overlay; returns whether it is the first,
    /// on which the first frame is to be drawn.
    pub fn configure(&mut self) -> (first: bool)
        ensures
            first == !old(self).has_first_configure,
            final(self).has_first_configure,
            final(self).started == old(self).started,
    {
        let first = !self.has_first_configure;
        self.has_first_configure = true;
        first
    }
}

/// Fade progress never goes back as time goes on, and the fade is finished
/// only once its whole duration has passed: at `now` it is finished exactly
/// when more than `FADE_TIME` has elapsed, and then stays finished.
pub proof fn lemma_fade_monotonic(started: u64, now1: u64, now2: u64)
    requires
        now1 <= now2,
    ensures
        elapsed_since(started, now1) <= elapsed_since(started, now2),
        fade_progress(started, now1) <= fade_progress(started, now2),
        fade_progress(started, now1) <= FADE_TIME,
        fade_finished(started, now1) ==> fade_finished(started, now2),
        fade_finished(started, now1) ==> now1 >= started + FADE_TIME,
        now1 <= started + FADE_TIME ==> !fade_finished(started, now1),
{
}

} // verus!
