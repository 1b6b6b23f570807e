use fono::builder::{
    build_snapshot, repeat_mode_label, ticks_to_ms, MediaReading, PlaybackReading, SessionReading,
    TimelineReading,
};
use fono::snapshot::Snapshot;

fn empty_reading() -> SessionReading {
    SessionReading {
        app_id: None,
        media: None,
        playback: None,
        timeline: None,
    }
}

#[test]
fn ticks_convert_by_integer_division() {
    assert_eq!(ticks_to_ms(10_000_000), 1_000);
    assert_eq!(ticks_to_ms(0), 0);
    assert_eq!(ticks_to_ms(9_999), 0);
    assert_eq!(ticks_to_ms(25_000), 2);
}

#[test]
fn repeat_labels_map_provider_codes() {
    // platform codes: 0 = off, 1 = track, 2 = context (playlist)
    assert_eq!(repeat_mode_label(Some(2)), Some("context".to_string()));
    assert_eq!(repeat_mode_label(Some(1)), Some("track".to_string()));
    assert_eq!(repeat_mode_label(Some(0)), Some("off".to_string()));
    // present but unrecognized defaults to "off"
    assert_eq!(repeat_mode_label(Some(77)), Some("off".to_string()));
    // unreadable stays absent
    assert_eq!(repeat_mode_label(None), None);
}

#[test]
fn empty_reading_builds_default_snapshot() {
    let snap = build_snapshot(empty_reading());
    assert!(snap.same_as(&Snapshot::default()));
}

#[test]
fn full_reading_flattens_field_by_field() {
    let reading = SessionReading {
        app_id: Some("VLC.exe".to_string()),
        media: Some(MediaReading {
            title: Some("A Song".to_string()),
            artist: Some("An Artist".to_string()),
            album: Some("An Album".to_string()),
            thumbnail: None,
        }),
        playback: Some(PlaybackReading {
            status: Some(4),
            repeat: Some(1),
            shuffle: Some(true),
        }),
        timeline: Some(TimelineReading {
            position_ticks: Some(10_000_000),
            end_ticks: Some(30_000_000),
        }),
    };
    let snap = build_snapshot(reading);
    assert_eq!(snap.app_id, Some("VLC.exe".to_string()));
    assert_eq!(snap.title, Some("A Song".to_string()));
    assert_eq!(snap.artist, Some("An Artist".to_string()));
    assert_eq!(snap.album, Some("An Album".to_string()));
    assert!(snap.playing);
    assert_eq!(snap.repeat_mode, Some("track".to_string()));
    assert!(snap.shuffle);
    assert_eq!(snap.position_ms, Some(1_000));
    assert_eq!(snap.duration_ms, Some(3_000));
    assert_eq!(snap.thumbnail, None);
}

#[test]
fn non_playing_status_and_partial_reads_default() {
    let reading = SessionReading {
        app_id: None,
        media: None,
        playback: Some(PlaybackReading {
            status: Some(5), // paused: not playing
            repeat: None,
            shuffle: None,
        }),
        timeline: Some(TimelineReading {
            position_ticks: None, // readable timeline, missing value: zero ticks
            end_ticks: Some(20_000),
        }),
    };
    let snap = build_snapshot(reading);
    assert!(!snap.playing);
    assert_eq!(snap.repeat_mode, None);
    assert!(!snap.shuffle);
    assert_eq!(snap.position_ms, Some(0));
    assert_eq!(snap.duration_ms, Some(2));
}

#[test]
fn failed_timeline_read_leaves_times_absent() {
    let mut reading = empty_reading();
    reading.playback = Some(PlaybackReading {
        status: None,
        repeat: Some(0),
        shuffle: Some(false),
    });
    let snap = build_snapshot(reading);
    assert_eq!(snap.position_ms, None);
    assert_eq!(snap.duration_ms, None);
    assert_eq!(snap.repeat_mode, Some("off".to_string()));
    assert!(!snap.playing);
}
