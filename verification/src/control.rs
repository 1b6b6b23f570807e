//! The control dispatcher's decisions: which session operation each user
//! command maps to, given the target session's current playback reading.
//! Issuing the operation is the caller's work; the decision is verified.

use vstd::prelude::*;
use crate::builder::{
    repeat_of, shuffle_of, PlaybackReading, REPEAT_RAW_CONTEXT, REPEAT_RAW_OFF, REPEAT_RAW_TRACK,
};

verus! {

/// A user intent, as the control surface exposes it.
#[derive(Clone, Copy, Debug, PartialEq, Eq, Structural)]
pub enum Command {
    Play,
    Pause,
    SkipNext,
    SkipPrevious,
    CycleRepeat,
    ToggleShuffle,
}

/// The operation to issue on the target session.
#[derive(Clone, Copy, Debug, PartialEq, Eq, Structural)]
pub enum SessionAction {
    Play,
    Pause,
    SkipNext,
    SkipPrevious,
    SetRepeat(i32),
    SetShuffle(bool),
}

/// The repeat mode that follows the current one along the fixed cycle
/// context -> track -> off -> context; an absent or unrecognized current
/// mode counts as off and advances to context.
pub open spec fn next_repeat_raw(current: Option<i32>) -> i32 {
    match current {
        Option::Some(v) => if v == REPEAT_RAW_CONTEXT {
            REPEAT_RAW_TRACK
        } else if v == REPEAT_RAW_TRACK {
            REPEAT_RAW_OFF
        } else {
            REPEAT_RAW_CONTEXT
        },
        Option::None => REPEAT_RAW_CONTEXT,
    }
}

/// Advance the repeat mode one step along the fixed cycle.
pub fn cycle_repeat_mode(current: Option<i32>) -> (r: i32)
    ensures
        r == next_repeat_raw(current),
{
    match current {
        Some(v) => {
            if v == REPEAT_RAW_CONTEXT {
                REPEAT_RAW_TRACK
            } else if v == REPEAT_RAW_TRACK {
                REPEAT_RAW_OFF
            } else {
                REPEAT_RAW_CONTEXT
            }
        },
        None => REPEAT_RAW_CONTEXT,
    }
}

/// Repeat-mode cycle law: context advances to track, track to off, off to
/// context; an absent mode advances to context; and from any recognized
/// mode three steps return to it.
pub proof fn lemma_repeat_cycle(v: i32)
    ensures
        next_repeat_raw(Some(REPEAT_RAW_CONTEXT)) == REPEAT_RAW_TRACK,
        next_repeat_raw(Some(REPEAT_RAW_TRACK)) == REPEAT_RAW_OFF,
        next_repeat_raw(Some(REPEAT_RAW_OFF)) == REPEAT_RAW_CONTEXT,
        next_repeat_raw(None) == REPEAT_RAW_CONTEXT,
        v == REPEAT_RAW_OFF || v == REPEAT_RAW_CONTEXT || v == REPEAT_RAW_TRACK
            ==> next_repeat_raw(
            Some(next_repeat_raw(Some(next_repeat_raw(Some(v))))),
        ) == v,
{
}

/// The operation each command maps to. The two stateful commands read the
/// target session's current playback state: cycle-repeat advances the
/// current mode along the fixed cycle, toggle-shuffle negates the current
/// flag (absent counts as false).
pub open spec fn action_for(cmd: Command, playback: Option<PlaybackReading>) -> SessionAction {
    match cmd {
        Command::Play => SessionAction::Play,
        Command::Pause => SessionAction::Pause,
        Command::SkipNext => SessionAction::SkipNext,
        Command::SkipPrevious => SessionAction::SkipPrevious,
        Command::CycleRepeat => SessionAction::SetRepeat(next_repeat_raw(repeat_of(playback))),
        Command::ToggleShuffle => SessionAction::SetShuffle(!shuffle_of(playback)),
    }
}

/// Decide the session operation for one user command, given the playback
/// reading of the target session (absent when it could not be read).
pub fn plan_control(cmd: Command, playback: Option<PlaybackReading>) -> (a: SessionAction)
    ensures
        a == action_for(cmd, playback),
{
    match cmd {
        Command::Play => SessionAction::Play,
        Command::Pause => SessionAction::Pause,
        Command::SkipNext => SessionAction::SkipNext,
        Command::SkipPrevious => SessionAction::SkipPrevious,
        Command::CycleRepeat => {
            let current: Option<i32> = match playback {
                Some(p) => p.repeat,
                None => None,
            };
            SessionAction::SetRepeat(cycle_repeat_mode(current))
        },
        Command::ToggleShuffle => {
            let on: bool = match playback {
                Some(p) => match p.shuffle {
                    Some(b) => b,
                    None => false,
                },
                None => false,
            };
            SessionAction::SetShuffle(!on)
        },
    }
}

} // verus!
