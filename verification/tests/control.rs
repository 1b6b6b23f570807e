use fono::builder::PlaybackReading;
use fono::control::{cycle_repeat_mode, plan_control, Command, SessionAction};

fn playback_with_repeat(repeat: Option<i32>) -> Option<PlaybackReading> {
    Some(PlaybackReading {
        status: None,
        repeat,
        shuffle: None,
    })
}

#[test]
fn repeat_cycle_context_track_off_context() {
    // platform codes: 0 = off, 1 = track, 2 = context (playlist)
    // context -> track -> off -> context
    assert_eq!(cycle_repeat_mode(Some(2)), 1);
    assert_eq!(cycle_repeat_mode(Some(1)), 0);
    assert_eq!(cycle_repeat_mode(Some(0)), 2);
    // absent or unrecognized counts as off and advances to context
    assert_eq!(cycle_repeat_mode(None), 2);
    assert_eq!(cycle_repeat_mode(Some(42)), 2);
}

#[test]
fn plain_commands_map_directly() {
    assert_eq!(plan_control(Command::Play, None), SessionAction::Play);
    assert_eq!(plan_control(Command::Pause, None), SessionAction::Pause);
    assert_eq!(plan_control(Command::SkipNext, None), SessionAction::SkipNext);
    assert_eq!(
        plan_control(Command::SkipPrevious, None),
        SessionAction::SkipPrevious
    );
}

#[test]
fn cycle_repeat_reads_current_mode() {
    assert_eq!(
        plan_control(Command::CycleRepeat, playback_with_repeat(Some(2))),
        SessionAction::SetRepeat(1)
    );
    assert_eq!(
        plan_control(Command::CycleRepeat, playback_with_repeat(Some(1))),
        SessionAction::SetRepeat(0)
    );
    assert_eq!(
        plan_control(Command::CycleRepeat, playback_with_repeat(None)),
        SessionAction::SetRepeat(2)
    );
    assert_eq!(
        plan_control(Command::CycleRepeat, None),
        SessionAction::SetRepeat(2)
    );
}

#[test]
fn toggle_shuffle_negates_current_flag() {
    let on = Some(PlaybackReading {
        status: None,
        repeat: None,
        shuffle: Some(true),
    });
    let off = Some(PlaybackReading {
        status: None,
        repeat: None,
        shuffle: Some(false),
    });
    assert_eq!(
        plan_control(Command::ToggleShuffle, on),
        SessionAction::SetShuffle(false)
    );
    assert_eq!(
        plan_control(Command::ToggleShuffle, off),
        SessionAction::SetShuffle(true)
    );
    // absent counts as false: toggling turns shuffle on
    assert_eq!(
        plan_control(Command::ToggleShuffle, None),
        SessionAction::SetShuffle(true)
    );
}
