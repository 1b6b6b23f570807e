//! Building a snapshot from one session's raw readings. Every sub-query of
//! the provider is individually fallible; a failed one leaves its fields at
//! the default, so a snapshot is always constructible.

use vstd::prelude::*;
use crate::codec::{process_thumbnail, spec_thumb};
use crate::selector::{choose_logo_crop, wants_logo_crop};
use crate::snapshot::{Snapshot, SnapshotView};

verus! {

/// Provider status code for an actively playing session; every other code,
/// and an unreadable status, counts as not playing.
pub const PLAYBACK_STATUS_PLAYING: i32 = 4;

/// Provider code for the repeat-off mode.
pub const REPEAT_RAW_OFF: i32 = 0;

/// Provider code for repeating the single track.
pub const REPEAT_RAW_TRACK: i32 = 1;

/// Provider code for repeating the whole context (playlist).
pub const REPEAT_RAW_CONTEXT: i32 = 2;

/// Platform time unit: 100-nanosecond ticks per millisecond.
pub const TICKS_PER_MS: i64 = 10000;

/// Media-properties reading: text metadata and the raw thumbnail bytes, as
/// far as they could be resolved.
pub struct MediaReading {
    pub title: Option<String>,
    pub artist: Option<String>,
    pub album: Option<String>,
    pub thumbnail: Option<Vec<u8>>,
}

/// Mathematical image of a [`MediaReading`].
pub ghost struct MediaReadingView {
    pub title: Option<Seq<char>>,
    pub artist: Option<Seq<char>>,
    pub album: Option<Seq<char>>,
    pub thumbnail: Option<Seq<u8>>,
}

impl View for MediaReading {
    type V = MediaReadingView;

    open spec fn view(&self) -> MediaReadingView {
        MediaReadingView {
            title: self.title.deep_view(),
            artist: self.artist.deep_view(),
            album: self.album.deep_view(),
            thumbnail: self.thumbnail.deep_view(),
        }
    }
}

/// Playback-info reading: raw provider codes, `None` where the individual
/// value could not be read.
#[derive(Clone, Copy, Debug)]
pub struct PlaybackReading {
    pub status: Option<i32>,
    pub repeat: Option<i32>,
    pub shuffle: Option<bool>,
}

/// Timeline reading: raw tick values, `None` where the individual value
/// could not be read.
#[derive(Clone, Copy, Debug)]
pub struct TimelineReading {
    pub position_ticks: Option<i64>,
    pub end_ticks: Option<i64>,
}

/// Everything read from one selected session on one tick. Each part is
/// `None` when its provider query failed as a whole.
pub struct SessionReading {
    pub app_id: Option<String>,
    pub media: Option<MediaReading>,
    pub playback: Option<PlaybackReading>,
    pub timeline: Option<TimelineReading>,
}

/// Mathematical image of a [`SessionReading`].
pub ghost struct SessionReadingView {
    pub app_id: Option<Seq<char>>,
    pub media: Option<MediaReadingView>,
    pub playback: Option<PlaybackReading>,
    pub timeline: Option<TimelineReading>,
}

/// Mathematical image of an optional media reading.
pub open spec fn opt_media_view(m: Option<MediaReading>) -> Option<MediaReadingView> {
    match m {
        Option::Some(x) => Some(x@),
        Option::None => None,
    }
}

impl View for SessionReading {
    type V = SessionReadingView;

    open spec fn view(&self) -> SessionReadingView {
        SessionReadingView {
            app_id: self.app_id.deep_view(),
            media: opt_media_view(self.media),
            playback: self.playback,
            timeline: self.timeline,
        }
    }
}

/// Milliseconds derived from a platform tick count by integer division.
/// The provider only reports non-negative durations; a negative count
/// clamps to zero.
pub open spec fn ms_of_ticks(t: i64) -> u64 {
    if t < 0 {
        0u64
    } else {
        (t / TICKS_PER_MS) as u64
    }
}

/// A tick value that was readable as a whole but individually missing
/// counts as zero ticks.
pub open spec fn tick_or_zero(t: Option<i64>) -> i64 {
    match t {
        Option::Some(v) => v,
        Option::None => 0,
    }
}

/// The label a raw repeat-mode code maps to: absent when the mode could
/// not be read at all, "off" when it is present but unrecognized.
pub open spec fn repeat_label(raw: Option<i32>) -> Option<Seq<char>> {
    match raw {
        Option::None => None,
        Option::Some(v) => if v == REPEAT_RAW_CONTEXT {
            Some("context"@)
        } else if v == REPEAT_RAW_TRACK {
            Some("track"@)
        } else {
            Some("off"@)
        },
    }
}

/// The session is playing: its status was readable and is exactly the
/// playing status.
pub open spec fn playing_of(pb: Option<PlaybackReading>) -> bool {
    pb matches Some(p) && p.status == Some(PLAYBACK_STATUS_PLAYING)
}

/// The shuffle flag, false when unknown.
pub open spec fn shuffle_of(pb: Option<PlaybackReading>) -> bool {
    pb matches Some(p) && p.shuffle == Some(true)
}

/// The raw repeat-mode code of a playback reading, absent when the reading
/// or the code itself is missing.
pub open spec fn repeat_of(pb: Option<PlaybackReading>) -> Option<i32> {
    match pb {
        Option::Some(p) => p.repeat,
        Option::None => None,
    }
}

/// The thumbnail field: present only when media properties were read, the
/// byte stream was present and non-empty, and the processing pipeline
/// produced a value; the transform is chosen by the owning application.
pub open spec fn thumb_of(app_id: Option<Seq<char>>, media: Option<MediaReadingView>) -> Option<
    Seq<char>,
> {
    match media {
        Option::None => None,
        Option::Some(m) => match m.thumbnail {
            Option::None => None,
            Option::Some(bytes) => if bytes.len() == 0 {
                None
            } else {
                spec_thumb(bytes, wants_logo_crop(app_id))
            },
        },
    }
}

/// The snapshot a session reading flattens to, field by field.
pub open spec fn snapshot_of(r: SessionReadingView) -> SnapshotView {
    SnapshotView {
        app_id: r.app_id,
        title: match r.media {
            Option::Some(m) => m.title,
            Option::None => None,
        },
        artist: match r.media {
            Option::Some(m) => m.artist,
            Option::None => None,
        },
        album: match r.media {
            Option::Some(m) => m.album,
            Option::None => None,
        },
        playing: playing_of(r.playback),
        repeat_mode: repeat_label(repeat_of(r.playback)),
        shuffle: shuffle_of(r.playback),
        position_ms: match r.timeline {
            Option::Some(t) => Some(ms_of_ticks(tick_or_zero(t.position_ticks))),
            Option::None => None,
        },
        duration_ms: match r.timeline {
            Option::Some(t) => Some(ms_of_ticks(tick_or_zero(t.end_ticks))),
            Option::None => None,
        },
        thumbnail: thumb_of(r.app_id, r.media),
    }
}

/// Convert a platform tick count to milliseconds.
pub fn ticks_to_ms(ticks: i64) -> (r: u64)
    ensures
        r == ms_of_ticks(ticks),
{
    if ticks < 0 {
        0
    } else {
        (ticks / TICKS_PER_MS) as u64
    }
}

/// Map a raw repeat-mode code to its label.
pub fn repeat_mode_label(raw: Option<i32>) -> (r: Option<String>)
    ensures
        r.deep_view() == repeat_label(raw),
{
    match raw {
        None => None,
        Some(v) => {
            if v == REPEAT_RAW_CONTEXT {
                Some("context".to_owned())
            } else if v == REPEAT_RAW_TRACK {
                Some("track".to_owned())
            } else {
                Some("off".to_owned())
            }
        },
    }
}

/// Process the thumbnail of a media reading, choosing the transform by the
/// owning application.
fn thumbnail_for(app_id: &Option<String>, media: &Option<MediaReading>) -> (r: Option<String>)
    ensures
        r.deep_view() == thumb_of(app_id.deep_view(), opt_media_view(*media)),
{
    match media {
        Some(m) => {
            proof {
                assert(opt_media_view(*media) == Some(m@));
            }
            match &m.thumbnail {
                Some(bytes) => {
                    proof {
                        assert(m@.thumbnail == Some(bytes@));
                    }
                    if bytes.len() > 0 {
                        process_thumbnail(bytes, choose_logo_crop(app_id))
                    } else {
                        None
                    }
                },
                None => None,
            }
        },
        None => None,
    }
}

/// Flatten one session's readings into a snapshot. Never fails: every
/// absent or unreadable part becomes the default for its fields.
pub fn build_snapshot(reading: SessionReading) -> (snap: Snapshot)
    ensures
        snap@ == snapshot_of(reading@),
{
    let ghost rv = reading@;
    let SessionReading { app_id, media, playback, timeline } = reading;
    let thumbnail: Option<String> = thumbnail_for(&app_id, &media);
    let mut title: Option<String> = None;
    let mut artist: Option<String> = None;
    let mut album: Option<String> = None;
    match media {
        Some(m) => {
            title = m.title;
            artist = m.artist;
            album = m.album;
        },
        None => {},
    }
    let playing: bool = match playback {
        Some(p) => match p.status {
            Some(s) => s == PLAYBACK_STATUS_PLAYING,
            None => false,
        },
        None => false,
    };
    let repeat_mode: Option<String> = match playback {
        Some(p) => repeat_mode_label(p.repeat),
        None => None,
    };
    let shuffle: bool = match playback {
        Some(p) => match p.shuffle {
            Some(b) => b,
            None => false,
        },
        None => false,
    };
    let position_ms: Option<u64> = match timeline {
        Some(t) => match t.position_ticks {
            Some(v) => Some(ticks_to_ms(v)),
            None => Some(ticks_to_ms(0)),
        },
        None => None,
    };
    let duration_ms: Option<u64> = match timeline {
        Some(t) => match t.end_ticks {
            Some(v) => Some(ticks_to_ms(v)),
            None => Some(ticks_to_ms(0)),
        },
        None => None,
    };
    let snap = Snapshot {
        app_id,
        title,
        artist,
        album,
        playing,
        repeat_mode,
        shuffle,
        position_ms,
        duration_ms,
        thumbnail,
    };
    proof {
        assert(snap@ =~= snapshot_of(rv));
    }
    snap
}

/// A tick with no selectable session: the empty reading flattens to
/// exactly the all-defaults snapshot, so a provider outage looks like
/// silence, not like an error.
pub proof fn lemma_empty_reading_defaults()
    ensures
        snapshot_of(
            SessionReadingView { app_id: None, media: None, playback: None, timeline: None },
        ) == crate::snapshot::default_view(),
{
    assert(snapshot_of(
        SessionReadingView { app_id: None, media: None, playback: None, timeline: None },
    ) =~= crate::snapshot::default_view());
}

} // verus!
