//! Input-activity state machine.
//!
//! Consumes keyboard/mouse occurrences and periodic idle-timer ticks, all
//! stamped with caller-supplied millisecond instants, and produces the
//! semantic `ActivityEvent`s to publish.  The host process wraps one
//! `InputMonitor` in its exclusive-access lock, feeds it from the OS input
//! hook and a timer task, and broadcasts the returned events; the decision
//! logic itself lives here, verified.

use vstd::prelude::*;

use crate::IDLE_THRESHOLD_MS;

verus! {

/// Immutable value emitted on activity-state transitions.
#[derive(Clone, Copy, Debug, PartialEq, Eq)]
pub enum ActivityEvent {
    KeyboardActivity { time_stamp: u64 },
    MouseActivity { time_stamp: u64 },
    IdleDetected { duration: u64 },
    ActivityResumed,
}

/// Last-input instant and idle flag; the single shared record of user
/// activity.
#[derive(Clone, Copy, Debug)]
pub struct ActivityState {
    pub last_activity: Option<u64>,
    pub is_idle: bool,
}

impl ActivityState {
    /// No recorded instant lies after `now`; holds whenever the clock
    /// handed in is monotone.
    pub open spec fn in_sync_at(&self, now: u64) -> bool {
        match self.last_activity {
            Some(t) => t <= now,
            None => true,
        }
    }

    /// The state after any input occurrence at instant `now`: input
    /// recorded, idle flag cleared.
    pub open spec fn spec_after_input(now: u64) -> ActivityState {
        ActivityState { last_activity: Some(now), is_idle: false }
    }

    /// The events an input occurrence emits from this state, in order: a
    /// resumption first when the user was idle, then the triggering
    /// activity event.
    pub open spec fn spec_input_events(self, ev: ActivityEvent) -> Seq<ActivityEvent> {
        if self.is_idle {
            seq![ActivityEvent::ActivityResumed, ev]
        } else {
            seq![ev]
        }
    }

    /// An idle-timer check at instant `now` flips this state to idle.
    pub open spec fn spec_idle_due(self, threshold: u64, now: u64) -> bool {
        match self.last_activity {
            Some(t) => now - t >= threshold && !self.is_idle,
            None => false,
        }
    }

    /// The state after an idle-timer check at instant `now`.
    pub open spec fn spec_after_idle_check(self, threshold: u64, now: u64) -> ActivityState {
        if self.spec_idle_due(threshold, now) {
            ActivityState { is_idle: true, ..self }
        } else {
            self
        }
    }

    /// Initial state: active until proven idle, with no recorded input.
    pub fn new() -> (r: ActivityState)
        ensures
            r.last_activity is None,
            !r.is_idle,
    {
        ActivityState { last_activity: None, is_idle: false }
    }

    /// Whether some input occurred within the last `within` milliseconds
    /// before `now`.
    pub fn is_recently_active(&self, within: u64, now: u64) -> (r: bool)
        requires
            self.in_sync_at(now),
        ensures
            r == match self.last_activity {
                Some(t) => now - t <= within,
                None => false,
            },
    {
        if let Some(t) = self.last_activity {
            now - t <= within
        } else {
            false
        }
    }

    /// Milliseconds elapsed at `now` since the last input, when any input
    /// was recorded.
    pub fn time_since_last_activity(&self, now: u64) -> (r: Option<u64>)
        requires
            self.in_sync_at(now),
        ensures
            r == match self.last_activity {
                Some(t) => Some((now - t) as u64),
                None => None::<u64>,
            },
    {
        if let Some(t) = self.last_activity {
            Some(now - t)
        } else {
            None
        }
    }
}

/// Tracks input activity and decides which semantic events each raw input
/// occurrence or idle-timer tick gives rise to.
pub struct InputMonitor {
    state: ActivityState,
    idle_threshold: u64,
}

impl InputMonitor {
    pub closed spec fn spec_state(&self) -> ActivityState {
        self.state
    }

    /// Idle threshold in milliseconds.
    pub closed spec fn threshold(&self) -> u64 {
        self.idle_threshold
    }

    pub open spec fn in_sync_at(&self, now: u64) -> bool {
        self.spec_state().in_sync_at(now)
    }

    pub fn new() -> (r: InputMonitor)
        ensures
            r.spec_state().last_activity is None,
            !r.spec_state().is_idle,
            r.threshold() == IDLE_THRESHOLD_MS,
    {
        InputMonitor { state: ActivityState::new(), idle_threshold: IDLE_THRESHOLD_MS }
    }

    /// Snapshot of the activity state; pure read.
    pub fn get_state(&self) -> (r: ActivityState)
        ensures
            r == self.spec_state(),
    {
        self.state
    }

    /// A keyboard occurrence at instant `now`: records the input, clears
    /// the idle flag, and returns the events to publish — `ActivityResumed`
    /// strictly before the keyboard event when the user was idle.
    pub fn handle_keyboard_event(&mut self, now: u64) -> (events: Vec<ActivityEvent>)
        ensures
            final(self).spec_state() == ActivityState::spec_after_input(now),
            final(self).threshold() == old(self).threshold(),
            events@ == old(self).spec_state().spec_input_events(
                ActivityEvent::KeyboardActivity { time_stamp: now },
            ),
    {
        self.state.last_activity = Some(now);
        let mut events: Vec<ActivityEvent> = Vec::new();
        if self.state.is_idle {
            self.state.is_idle = false;
            events.push(ActivityEvent::ActivityResumed);
        }
        events.push(ActivityEvent::KeyboardActivity { time_stamp: now });
        proof {
            if old(self).spec_state().is_idle {
                assert(events@ =~= seq![
                    ActivityEvent::ActivityResumed,
                    ActivityEvent::KeyboardActivity { time_stamp: now },
                ]);
            } else {
                assert(events@ =~= seq![ActivityEvent::KeyboardActivity { time_stamp: now }]);
            }
        }
        events
    }

    /// A mouse occurrence at instant `now`; same discipline as the
    /// keyboard handler.
    pub fn handle_mouse_event(&mut self, now: u64) -> (events: Vec<ActivityEvent>)
        ensures
            final(self).spec_state() == ActivityState::spec_after_input(now),
            final(self).threshold() == old(self).threshold(),
            events@ == old(self).spec_state().spec_input_events(
                ActivityEvent::MouseActivity { time_stamp: now },
            ),
    {
        self.state.last_activity = Some(now);
        let mut events: Vec<ActivityEvent> = Vec::new();
        if self.state.is_idle {
            self.state.is_idle = false;
            events.push(ActivityEvent::ActivityResumed);
        }
        events.push(ActivityEvent::MouseActivity { time_stamp: now });
        proof {
            if old(self).spec_state().is_idle {
                assert(events@ =~= seq![
                    ActivityEvent::ActivityResumed,
                    ActivityEvent::MouseActivity { time_stamp: now },
                ]);
            } else {
                assert(events@ =~= seq![ActivityEvent::MouseActivity { time_stamp: now }]);
            }
        }
        events
    }

    /// One idle-timer tick at instant `now`: when the elapsed time since
    /// the last input reaches the threshold and the user is not already
    /// idle, flip to idle and report the elapsed duration; otherwise leave
    /// everything unchanged.
    pub fn check_idle(&mut self, now: u64) -> (r: Option<ActivityEvent>)
        requires
            old(self).in_sync_at(now),
        ensures
            final(self).spec_state()
                == old(self).spec_state().spec_after_idle_check(old(self).threshold(), now),
            final(self).threshold() == old(self).threshold(),
            r == if old(self).spec_state().spec_idle_due(old(self).threshold(), now) {
                Some(ActivityEvent::IdleDetected {
                    duration: (now - old(self).spec_state().last_activity->Some_0) as u64,
                })
            } else {
                None::<ActivityEvent>
            },
    {
        if let Some(t) = self.state.last_activity {
            let elapsed = now - t;
            if elapsed >= self.idle_threshold && !self.state.is_idle {
                self.state.is_idle = true;
                return Some(ActivityEvent::IdleDetected { duration: elapsed });
            }
        }
        None
    }
}

/// LAW: after an idle check fires, a later check with no input in between
/// never fires again — exactly one `IdleDetected` per idle period — and
/// the next input occurrence emits exactly one `ActivityResumed`, strictly
/// before its triggering activity event; an input occurrence after that
/// emits no further resumption.
pub proof fn lemma_idle_detected_exactly_once(s: ActivityState, threshold: u64, t1: u64, t2: u64, t3: u64, ev: ActivityEvent, ev2: ActivityEvent)
    requires
        s.spec_idle_due(threshold, t1),
        t1 <= t2,
    ensures
        !s.spec_after_idle_check(threshold, t1).spec_idle_due(threshold, t2),
        s.spec_after_idle_check(threshold, t1).spec_input_events(ev)
            == seq![ActivityEvent::ActivityResumed, ev],
        ActivityState::spec_after_input(t3).spec_input_events(ev2) == seq![ev2],
{
}

} // verus!
