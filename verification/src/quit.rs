//! Leaving the program: the hold-to-quit gesture and the closing animation.
//!
//! A terminal reports a held key as a run of separate presses. The gesture
//! therefore counts a hold as lasting for as long as presses keep arriving
//! within a short idle window of each other.
//!
//! Time is a count of milliseconds from a clock that does not go back; the
//! caller reads the clock. A reading earlier than a stored one counts as no
//! time having passed.

use vstd::prelude::*;

verus! {

/// The longest pause between two presses, in milliseconds, within which the
/// key still counts as held.
pub const QUIT_IDLE_WINDOW_MS: u64 = 600;

/// How long the closing animation runs, in milliseconds.
pub const EXIT_ANIMATION_MS: u64 = 500;

/// The milliseconds from `then` to `now`; zero if `now` is the earlier one.
pub open spec fn since(now: u64, then: u64) -> u64 {
    if now >= then {
        (now - then) as u64
    } else {
        0
    }
}

/// The milliseconds from `then` to `now`.
pub fn elapsed(now: u64, then: u64) -> (ms: u64)
    ensures
        ms == since(now, then),
{
    if now >= then {
        now - then
    } else {
        0
    }
}

/// How far a hold has come: `elapsed_ms` of the `threshold_ms` it must last.
/// `elapsed_ms` never exceeds `threshold_ms`; the two are equal when the hold
/// is complete.
#[derive(Clone, Copy, Debug, PartialEq, Eq)]
pub struct QuitProgress {
    pub elapsed_ms: u64,
    pub threshold_ms: u64,
}

/// The state of the hold-to-quit gesture.
#[derive(Clone, Copy, Debug, PartialEq, Eq)]
pub struct QuitGesture {
    /// When the hold in progress began.
    pub hold_start: Option<u64>,
    /// When the quit key was last seen.
    pub last_key_time: Option<u64>,
    /// How long the key must be held, in milliseconds.
    pub threshold_ms: u64,
}

/// What one frame learns from the gesture.
#[derive(Clone, Copy, Debug, PartialEq, Eq)]
pub struct QuitTick {
    /// The hold has just reached its threshold.
    pub should_quit: bool,
    /// How far the hold has come; absent while no hold is in progress.
    pub progress: Option<QuitProgress>,
}

impl QuitGesture {
    /// The gesture at rest, with the same threshold.
    pub open spec fn idle(self) -> QuitGesture {
        QuitGesture { hold_start: None, last_key_time: None, threshold_ms: self.threshold_ms }
    }

    /// The quit key has not been seen within the idle window before `now`.
    pub open spec fn is_stale(self, now: u64) -> bool {
        match self.last_key_time {
            Some(last) => since(now, last) > QUIT_IDLE_WINDOW_MS,
            None => true,
        }
    }

    /// The gesture after a press of the quit key at `now`: the press continues
    /// the hold in progress if there is one that has not gone stale, and
    /// starts a hold otherwise.
    pub open spec fn spec_on_key_held(self, now: u64) -> QuitGesture {
        QuitGesture {
            hold_start: if self.hold_start is Some && !self.is_stale(now) {
                self.hold_start
            } else {
                Some(now)
            },
            last_key_time: Some(now),
            threshold_ms: self.threshold_ms,
        }
    }

    /// The gesture after the frame at `now`, and what the frame learns.
    ///
    /// Without a hold there is nothing to report. A hold that has gone stale
    /// is dropped, however long it lasted. A hold that has reached the
    /// threshold is reported as complete and dropped, so that it is reported
    /// once. Any other hold is reported with its progress.
    pub open spec fn spec_tick(self, now: u64) -> (QuitGesture, QuitTick) {
        match self.hold_start {
            None => (self.idle(), QuitTick { should_quit: false, progress: None }),
            Some(start) => if self.is_stale(now) {
                (self.idle(), QuitTick { should_quit: false, progress: None })
            } else if since(now, start) >= self.threshold_ms {
                (
                    self.idle(),
                    QuitTick {
                        should_quit: true,
                        progress: Some(
                            QuitProgress {
                                elapsed_ms: self.threshold_ms,
                                threshold_ms: self.threshold_ms,
                            },
                        ),
                    },
                )
            } else {
                (
                    self,
                    QuitTick {
                        should_quit: false,
                        progress: Some(
                            QuitProgress {
                                elapsed_ms: since(now, start),
                                threshold_ms: self.threshold_ms,
                            },
                        ),
                    },
                )
            },
        }
    }

    /// A gesture at rest that completes after `threshold_ms` of holding.
    pub fn new(threshold_ms: u64) -> (gesture: QuitGesture)
        ensures
            gesture == (QuitGesture { hold_start: None, last_key_time: None, threshold_ms }),
    {
        QuitGesture { hold_start: None, last_key_time: None, threshold_ms }
    }

    /// Whether the quit key has not been seen within the idle window.
    fn stale(&self, now: u64) -> (stale: bool)
        ensures
            stale == self.is_stale(now),
    {
        match self.last_key_time {
            Some(last) => elapsed(now, last) > QUIT_IDLE_WINDOW_MS,
            None => true,
        }
    }

    /// Records a press of the quit key at `now`.
    pub fn on_key_held(&mut self, now: u64)
        ensures
            *final(self) == old(self).spec_on_key_held(now),
    {
        let continues = self.hold_start.is_some() && !self.stale(now);
        if !continues {
            self.hold_start = Some(now);
        }
        self.last_key_time = Some(now);
    }

    /// Puts the gesture to rest.
    pub fn reset(&mut self)
        ensures
            *final(self) == old(self).idle(),
    {
        self.hold_start = None;
        self.last_key_time = None;
    }

    /// Advances the gesture to the frame at `now`.
    pub fn tick(&mut self, now: u64) -> (tick: QuitTick)
        ensures
            (*final(self), tick) == old(self).spec_tick(now),
            tick.progress matches Some(p) ==> p.elapsed_ms <= p.threshold_ms,
    {
        match self.hold_start {
            None => {
                self.reset();
                QuitTick { should_quit: false, progress: None }
            },
            Some(start) => {
                if self.stale(now) {
                    self.reset();
                    QuitTick { should_quit: false, progress: None }
                } else {
                    let held = elapsed(now, start);
                    let threshold_ms = self.threshold_ms;
                    if held >= threshold_ms {
                        self.reset();
                        QuitTick {
                            should_quit: true,
                            progress: Some(QuitProgress { elapsed_ms: threshold_ms, threshold_ms }),
                        }
                    } else {
                        QuitTick {
                            should_quit: false,
                            progress: Some(QuitProgress { elapsed_ms: held, threshold_ms }),
                        }
                    }
                }
            },
        }
    }
}

/// A completed hold is reported once: the frame that reports it leaves the
/// gesture at rest, and a gesture at rest reports nothing until the key is
/// pressed again.
pub proof fn lemma_quit_reported_once(gesture: QuitGesture, now: u64, later: u64)
    requires
        gesture.spec_tick(now).1.should_quit,
    ensures
        gesture.spec_tick(now).0 == gesture.idle(),
        gesture.spec_tick(now).0.spec_tick(later) == (
            gesture.idle(),
            QuitTick { should_quit: false, progress: None },
        ),
{
}

/// A hold whose key has not been seen within the idle window is dropped at the
/// next frame without quitting, whether or not it had lasted long enough.
pub proof fn lemma_stale_hold_resets(gesture: QuitGesture, now: u64)
    requires
        gesture.is_stale(now),
    ensures
        gesture.spec_tick(now) == (
            gesture.idle(),
            QuitTick { should_quit: false, progress: None },
        ),
{
}

/// A press that follows the last one within the idle window continues the
/// hold, and keeps it from going stale for another idle window.
pub proof fn lemma_repeat_continues_hold(gesture: QuitGesture, now: u64, later: u64)
    requires
        gesture.hold_start is Some,
        !gesture.is_stale(now),
        since(later, now) <= QUIT_IDLE_WINDOW_MS,
    ensures
        gesture.spec_on_key_held(now).hold_start == gesture.hold_start,
        !gesture.spec_on_key_held(now).is_stale(later),
{
}

/// A hold that is kept fresh quits at the first frame at which it has lasted
/// for the threshold, and not before.
pub proof fn lemma_fresh_hold_quits_at_threshold(gesture: QuitGesture, now: u64)
    requires
        gesture.hold_start is Some,
        !gesture.is_stale(now),
    ensures
        gesture.spec_tick(now).1.should_quit <==> since(now, gesture.hold_start->0)
            >= gesture.threshold_ms,
{
}

/// The closing animation: once begun, the program leaves when it has run its
/// time.
#[derive(Clone, Copy, Debug, PartialEq, Eq)]
pub struct Shutdown {
    /// When the animation began; absent while the program is not leaving.
    pub started: Option<u64>,
}

impl Shutdown {
    /// The shutdown after a request to leave at `now`: the first request
    /// starts the animation, later ones change nothing.
    pub open spec fn spec_begun(self, now: u64) -> Shutdown {
        match self.started {
            Some(_) => self,
            None => Shutdown { started: Some(now) },
        }
    }

    /// The animation has run its time at `now`.
    pub open spec fn spec_is_finished(self, now: u64) -> bool {
        match self.started {
            Some(start) => since(now, start) >= EXIT_ANIMATION_MS,
            None => false,
        }
    }

    /// The program is not leaving.
    pub fn new() -> (shutdown: Shutdown)
        ensures
            shutdown.started is None,
    {
        Shutdown { started: None }
    }

    /// Whether the animation has begun.
    pub fn is_underway(&self) -> (underway: bool)
        ensures
            underway == self.started is Some,
    {
        self.started.is_some()
    }

    /// Starts the animation at `now` unless it runs already. Returns whether
    /// this call started it.
    pub fn begin(&mut self, now: u64) -> (began: bool)
        ensures
            *final(self) == old(self).spec_begun(now),
            began == old(self).started is None,
    {
        if self.started.is_some() {
            false
        } else {
            self.started = Some(now);
            true
        }
    }

    /// Whether the animation has run its time and the program may leave.
    pub fn is_finished(&self, now: u64) -> (finished: bool)
        ensures
            finished == self.spec_is_finished(now),
    {
        match self.started {
            Some(start) => elapsed(now, start) >= EXIT_ANIMATION_MS,
            None => false,
        }
    }
}

} // verus!
