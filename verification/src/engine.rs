//! The rate-paced action engine's decisions: the target interval, the
//! per-iteration pacing choice, and edge-triggered activity cues.
//!
//! The engine's thread performs the actual sleeping and action injection;
//! everything it decides is computed here.

use vstd::prelude::*;

verus! {

pub const MICROS_PER_SECOND: u64 = 1_000_000;

/// Remaining waits at or under this threshold are spun through instead of
/// slept, to stay responsive to a concurrent run-state flip.
pub const MIN_SLEEP_MICROS: u64 = 1000;

/// How long the engine rests between run-state polls while idle.
pub const IDLE_POLL_MS: u64 = 50;

/// The exact spacing of actions at a given rate, in whole microseconds.
pub fn target_interval_micros(rate: u32) -> (r: u64)
    requires
        crate::config::MIN_RATE <= rate <= crate::config::MAX_RATE,
    ensures
        r == MICROS_PER_SECOND / rate as u64,
{
    MICROS_PER_SECOND / rate as u64
}

/// A start or stop cue, owed to the audio player and the tray indicator on
/// each observed run-state edge.
#[derive(Clone, Copy, Debug, PartialEq, Eq)]
pub enum Cue {
    Start,
    Stop,
}

/// The cue an observation owes: one exactly when the observed value
/// differs from the last observed value.
pub open spec fn cue_on_edge(was: bool, is: bool) -> Option<Cue> {
    if is == was {
        None
    } else if is {
        Some(Cue::Start)
    } else {
        Some(Cue::Stop)
    }
}

/// The engine's memory between loop iterations: the run state it saw last.
#[derive(Clone, Copy, Debug, PartialEq, Eq)]
pub struct Engine {
    pub was_running: bool,
}

impl Engine {
    pub fn new() -> (e: Engine)
        ensures
            !e.was_running,
    {
        Engine { was_running: false }
    }

    /// One poll of the run state. Returns the cue this iteration owes:
    /// a cue exactly on an edge, never merely per poll.
    pub fn observe(&mut self, is_running: bool) -> (cue: Option<Cue>)
        ensures
            final(self).was_running == is_running,
            cue == cue_on_edge(old(self).was_running, is_running),
    {
        let cue: Option<Cue> = if is_running == self.was_running {
            None
        } else if is_running {
            Some(Cue::Start)
        } else {
            Some(Cue::Stop)
        };
        self.was_running = is_running;
        cue
    }
}

/// What an active engine iteration does after measuring the time since the
/// last action.
#[derive(Clone, Copy, Debug, PartialEq, Eq)]
pub enum PaceAction {
    /// Perform the action now and restart the interval from now.
    Click,
    /// Sleep this many microseconds, then loop.
    Sleep(u64),
    /// Loop again immediately: the remainder is too short to sleep.
    Spin,
}

/// The pacing choice: act once the target interval has elapsed; otherwise
/// sleep the remainder, but only when it exceeds the spin threshold.
pub fn pace_decision(elapsed_micros: u64, rate: u32) -> (a: PaceAction)
    requires
        crate::config::MIN_RATE <= rate <= crate::config::MAX_RATE,
    ensures
        ({
            let target = MICROS_PER_SECOND / rate as u64;
            &&& (elapsed_micros >= target ==> a == PaceAction::Click)
            &&& (elapsed_micros < target && target - elapsed_micros > MIN_SLEEP_MICROS ==> a
                == PaceAction::Sleep((target - elapsed_micros) as u64))
            &&& (elapsed_micros < target && target - elapsed_micros <= MIN_SLEEP_MICROS ==> a
                == PaceAction::Spin)
        }),
{
    let target = target_interval_micros(rate);
    if elapsed_micros >= target {
        PaceAction::Click
    } else {
        let remaining = target - elapsed_micros;
        if remaining > MIN_SLEEP_MICROS {
            PaceAction::Sleep(remaining)
        } else {
            PaceAction::Spin
        }
    }
}

/// The run state the engine remembers after a sequence of polls.
pub open spec fn state_after(init: bool, polls: Seq<bool>) -> bool {
    if polls.len() == 0 {
        init
    } else {
        polls.last()
    }
}

/// The cues a sequence of polls produces, poll by poll.
pub open spec fn cue_trace(init: bool, polls: Seq<bool>) -> Seq<Option<Cue>>
    decreases polls.len(),
{
    if polls.len() == 0 {
        Seq::empty()
    } else {
        cue_trace(init, polls.drop_last()).push(
            cue_on_edge(state_after(init, polls.drop_last()), polls.last()),
        )
    }
}

/// Over any run, a poll owes a cue exactly when the run state changed
/// since the previous poll: one cue per edge, none per steady iteration.
pub proof fn lemma_cue_iff_edge(init: bool, polls: Seq<bool>, i: int)
    requires
        0 <= i < polls.len(),
    ensures
        cue_trace(init, polls).len() == polls.len(),
        cue_trace(init, polls)[i] == cue_on_edge(
            if i == 0 {
                init
            } else {
                polls[i - 1]
            },
            polls[i],
        ),
    decreases polls.len(),
{
    lemma_cue_trace_len(init, polls);
    if i == polls.len() - 1 {
        if polls.len() == 1 {
        } else {
            assert(polls.drop_last().last() == polls[i - 1]);
        }
    } else {
        lemma_cue_iff_edge(init, polls.drop_last(), i);
        assert(polls.drop_last()[i] == polls[i]);
        if i > 0 {
            assert(polls.drop_last()[i - 1] == polls[i - 1]);
        }
    }
}

pub proof fn lemma_cue_trace_len(init: bool, polls: Seq<bool>)
    ensures
        cue_trace(init, polls).len() == polls.len(),
    decreases polls.len(),
{
    if polls.len() > 0 {
        lemma_cue_trace_len(init, polls.drop_last());
    }
}

} // verus!
