//! Decides, once per tick of the render loop, whether a frame is due.
//!
//! Two things make a frame due: a credit of frames that are drawn without
//! further question, and one pending deadline, the earliest of all that were
//! asked for since the last one fired. Times are milliseconds on a clock that
//! never runs backwards; the caller reads it.

use crate::settings::Settings;
use vstd::prelude::*;

verus! {

/// What a scheduler holds, as plain numbers.
pub struct SchedulerState {
    /// Frames still to be drawn unconditionally.
    pub credit: nat,
    /// The earliest time asked for and not yet fired.
    pub deadline: Option<nat>,
}

impl SchedulerState {
    /// The state after a wake-up at `time` was asked for.
    pub open spec fn scheduled(self, time: nat) -> SchedulerState {
        SchedulerState {
            credit: self.credit,
            deadline: match self.deadline {
                Some(pending) if pending <= time => Some(pending),
                _ => Some(time),
            },
        }
    }

    /// The state after `frames` unconditional frames were granted.
    pub open spec fn queued(self, frames: nat) -> SchedulerState {
        SchedulerState { credit: frames, deadline: self.deadline }
    }

    /// Whether a frame is due at `now`.
    pub open spec fn due(self, now: nat) -> bool {
        self.credit > 0 || (self.deadline matches Some(pending) && pending < now)
    }

    /// The state after the render loop asked at `now`.
    pub open spec fn asked(self, now: nat) -> SchedulerState {
        if self.credit > 0 {
            SchedulerState { credit: (self.credit - 1) as nat, deadline: self.deadline }
        } else if self.due(now) {
            SchedulerState { credit: 0, deadline: None }
        } else {
            self
        }
    }

    /// The state after a wake-up was asked for at each of `times` in turn.
    pub open spec fn scheduled_each(self, times: Seq<nat>) -> SchedulerState
        decreases times.len(),
    {
        if times.len() == 0 {
            self
        } else {
            self.scheduled_each(times.drop_last()).scheduled(times.last())
        }
    }

    /// The state after the render loop asked at each of `times` in turn.
    pub open spec fn asked_each(self, times: Seq<nat>) -> SchedulerState
        decreases times.len(),
    {
        if times.len() == 0 {
            self
        } else {
            self.asked_each(times.drop_last()).asked(times.last())
        }
    }
}

/// A grant of frames is drawn frame by frame: as long as no more questions were
/// asked than frames were granted, the next question is answered with yes,
/// whatever the time. The questions leave the pending deadline alone and use up
/// one frame each.
pub proof fn lemma_granted_frames_are_drawn(
    state: SchedulerState,
    frames: nat,
    times: Seq<nat>,
    now: nat,
)
    requires
        times.len() < frames,
    ensures
        state.queued(frames).asked_each(times).due(now),
        state.queued(frames).asked_each(times).credit == frames - times.len(),
        state.queued(frames).asked_each(times).deadline == state.deadline,
    decreases times.len(),
{
    if times.len() > 0 {
        lemma_granted_frames_are_drawn(state, frames, times.drop_last(), times.last());
    }
}

/// Once every granted frame was drawn, a frame is due only where a deadline is
/// pending and has passed.
pub proof fn lemma_spent_grant_waits_for_deadline(
    state: SchedulerState,
    frames: nat,
    times: Seq<nat>,
    now: nat,
)
    requires
        times.len() == frames,
    ensures
        state.queued(frames).asked_each(times).credit == 0,
        state.queued(frames).asked_each(times).deadline == state.deadline,
        state.queued(frames).asked_each(times).due(now) == (state.deadline matches Some(pending)
            && pending < now),
{
    if times.len() > 0 {
        lemma_granted_frames_are_drawn(state, frames, times.drop_last(), times.last());
    }
}

/// Of two wake-ups asked for, the earlier one is kept; a deadline that was
/// pending before stays only if it is earlier still.
pub proof fn lemma_earlier_deadline_is_kept(state: SchedulerState, first: nat, second: nat)
    ensures
        state.deadline is None ==> state.scheduled(first).scheduled(second).deadline == Some(
            if first <= second {
                first
            } else {
                second
            },
        ),
        state.scheduled(first).scheduled(second).deadline matches Some(kept) && kept <= first
            && kept <= second && (kept == first || kept == second || state.deadline == Some(kept)),
        state.scheduled(first).scheduled(second).credit == state.credit,
{
}

/// The pending deadline is the earliest of all that were asked for since the
/// last one fired.
pub proof fn lemma_deadline_is_earliest(state: SchedulerState, times: Seq<nat>)
    requires
        state.deadline is None,
        times.len() > 0,
    ensures
        state.scheduled_each(times).deadline matches Some(kept) && times.contains(kept) && forall|
            at: int,
        |
            0 <= at < times.len() ==> kept <= times[at],
        state.scheduled_each(times).credit == state.credit,
    decreases times.len(),
{
    let earlier = times.drop_last();
    if earlier.len() > 0 {
        lemma_deadline_is_earliest(state, earlier);
        let before = state.scheduled_each(earlier).deadline->0;
        let at = choose|at: int| 0 <= at < earlier.len() && earlier[at] == before;
        assert(times[at] == before);
    }
    let kept = state.scheduled_each(times).deadline->0;
    if kept == times.last() {
        assert(times[times.len() - 1] == kept);
    }
    assert forall|at: int| 0 <= at < times.len() implies kept <= times[at] by {
        if at < earlier.len() {
            assert(earlier[at] == times[at]);
        }
    }
}

/// Without credit, a pending deadline makes exactly one frame due, and only
/// once it has passed: a question at or before the deadline is answered with
/// no and changes nothing; the first question after it is answered with yes
/// and clears the deadline, so that every question that follows is answered
/// with no until something new is asked for.
pub proof fn lemma_deadline_fires_once(state: SchedulerState, now: nat, later: nat)
    requires
        state.credit == 0,
        state.deadline is Some,
    ensures
        now <= state.deadline->0 ==> !state.due(now) && state.asked(now) == state,
        now > state.deadline->0 ==> state.due(now) && !state.asked(now).due(later)
            && state.asked(now).deadline is None,
{
}

pub struct RedrawScheduler {
    frames_queued: u16,
    scheduled_frame: Option<u64>,
}

impl View for RedrawScheduler {
    type V = SchedulerState;

    closed spec fn view(&self) -> SchedulerState {
        SchedulerState {
            credit: self.frames_queued as nat,
            deadline: match self.scheduled_frame {
                Some(time) => Some(time as nat),
                None => None,
            },
        }
    }
}

impl RedrawScheduler {
    /// A scheduler that owes the first frame and waits for nothing else.
    pub fn new() -> (scheduler: RedrawScheduler)
        ensures
            scheduler@ == (SchedulerState { credit: 1, deadline: None }),
    {
        RedrawScheduler { frames_queued: 1, scheduled_frame: None }
    }

    /// Asks for a frame once `new_scheduled` has passed. An earlier pending
    /// deadline stays; a later one gives way.
    pub fn schedule(&mut self, new_scheduled: u64)
        ensures
            final(self)@ == old(self)@.scheduled(new_scheduled as nat),
    {
        match self.scheduled_frame {
            Some(previous_scheduled) => {
                if new_scheduled < previous_scheduled {
                    self.scheduled_frame = Some(new_scheduled);
                }
            },
            None => {
                self.scheduled_frame = Some(new_scheduled);
            },
        }
    }

    /// Grants as many unconditional frames as the setting
    /// `extra_buffer_frames` says, replacing what was left of an earlier grant.
    pub fn queue_next_frame(&mut self, settings: &Settings)
        ensures
            final(self)@ == old(self)@.queued(settings.buffer_frames()),
    {
        self.frames_queued = settings.extra_buffer_frames();
    }

    /// The frames still to be drawn unconditionally.
    pub fn frames_queued(&self) -> (frames: u16)
        ensures
            frames == self@.credit,
    {
        self.frames_queued
    }

    /// The pending deadline, if there is one.
    pub fn scheduled_frame(&self) -> (deadline: Option<u64>)
        ensures
            match deadline {
                Some(time) => self@.deadline == Some(time as nat),
                None => self@.deadline is None,
            },
    {
        self.scheduled_frame
    }

    /// Says whether a frame is due at `now`, and uses up what made it due: one
    /// frame of credit, or else the pending deadline if it lies before `now`.
    pub fn should_draw(&mut self, now: u64) -> (due: bool)
        ensures
            due == old(self)@.due(now as nat),
            final(self)@ == old(self)@.asked(now as nat),
    {
        if self.frames_queued > 0 {
            self.frames_queued = self.frames_queued - 1;
            true
        } else {
            match self.scheduled_frame {
                Some(scheduled_frame) => {
                    if scheduled_frame < now {
                        self.scheduled_frame = None;
                        true
                    } else {
                        false
                    }
                },
                None => false,
            }
        }
    }
}

} // verus!
