//! The snapshot: an immutable, value-comparable record of one media session's
//! observable state, and the monitor state that suppresses redundant emission.

use vstd::prelude::*;

verus! {

/// Mathematical image of a [`Snapshot`]: every text field as a sequence of
/// characters, everything else as a plain value.
#[verifier::ext_equal]
pub ghost struct SnapshotView {
    pub app_id: Option<Seq<char>>,
    pub title: Option<Seq<char>>,
    pub artist: Option<Seq<char>>,
    pub album: Option<Seq<char>>,
    pub playing: bool,
    pub repeat_mode: Option<Seq<char>>,
    pub shuffle: bool,
    pub position_ms: Option<u64>,
    pub duration_ms: Option<u64>,
    pub thumbnail: Option<Seq<char>>,
}

/// Observable playback state of one session at one instant.
///
/// Every field defaults to empty/false/absent when the underlying query
/// fails, so a snapshot is always constructible and never an error carrier.
/// Equality of whole snapshots is the sole basis for suppressing redundant
/// change notifications.
#[derive(Debug)]
pub struct Snapshot {
    pub app_id: Option<String>,
    pub title: Option<String>,
    pub artist: Option<String>,
    pub album: Option<String>,
    pub playing: bool,
    pub repeat_mode: Option<String>,
    pub shuffle: bool,
    pub position_ms: Option<u64>,
    pub duration_ms: Option<u64>,
    pub thumbnail: Option<String>,
}

impl View for Snapshot {
    type V = SnapshotView;

    open spec fn view(&self) -> SnapshotView {
        SnapshotView {
            app_id: self.app_id.deep_view(),
            title: self.title.deep_view(),
            artist: self.artist.deep_view(),
            album: self.album.deep_view(),
            playing: self.playing,
            repeat_mode: self.repeat_mode.deep_view(),
            shuffle: self.shuffle,
            position_ms: self.position_ms,
            duration_ms: self.duration_ms,
            thumbnail: self.thumbnail.deep_view(),
        }
    }
}

/// The all-defaults snapshot value: what the monitor starts from, and what a
/// tick with no selectable session produces.
pub open spec fn default_view() -> SnapshotView {
    SnapshotView {
        app_id: None,
        title: None,
        artist: None,
        album: None,
        playing: false,
        repeat_mode: None,
        shuffle: false,
        position_ms: None,
        duration_ms: None,
        thumbnail: None,
    }
}

impl Default for Snapshot {
    /// Every field empty, false or absent.
    fn default() -> (r: Snapshot)
        ensures
            r@ == default_view(),
    {
        Snapshot {
            app_id: None,
            title: None,
            artist: None,
            album: None,
            playing: false,
            repeat_mode: None,
            shuffle: false,
            position_ms: None,
            duration_ms: None,
            thumbnail: None,
        }
    }
}

/// Equality of two optional strings, decided on their character sequences.
fn opt_string_eq(a: &Option<String>, b: &Option<String>) -> (r: bool)
    ensures
        r == (a.deep_view() == b.deep_view()),
{
    match (a, b) {
        (Some(x), Some(y)) => *x == *y,
        (None, None) => true,
        _ => false,
    }
}

/// Equality of two optional integers.
fn opt_u64_eq(a: &Option<u64>, b: &Option<u64>) -> (r: bool)
    ensures
        r == (*a == *b),
{
    match (a, b) {
        (Some(x), Some(y)) => *x == *y,
        (None, None) => true,
        _ => false,
    }
}

impl Snapshot {
    /// Value equality: true exactly when every field is equal.
    pub fn same_as(&self, other: &Snapshot) -> (r: bool)
        ensures
            r == (self@ == other@),
    {
        let r = opt_string_eq(&self.app_id, &other.app_id)
            && opt_string_eq(&self.title, &other.title)
            && opt_string_eq(&self.artist, &other.artist)
            && opt_string_eq(&self.album, &other.album)
            && self.playing == other.playing
            && opt_string_eq(&self.repeat_mode, &other.repeat_mode)
            && self.shuffle == other.shuffle
            && opt_u64_eq(&self.position_ms, &other.position_ms)
            && opt_u64_eq(&self.duration_ms, &other.duration_ms)
            && opt_string_eq(&self.thumbnail, &other.thumbnail);
        proof {
            if r {
                assert(self@ =~= other@);
            }
        }
        r
    }
}

/// Snapshot equality is an equivalence relation: reflexive, symmetric and
/// transitive. Emission decisions may therefore treat "unchanged" as a
/// well-defined notion.
pub proof fn lemma_snapshot_eq_equivalence(a: SnapshotView, b: SnapshotView, c: SnapshotView)
    ensures
        a == a,
        (a == b) == (b == a),
        a == b && b == c ==> a == c,
{
}

/// Monitor state: the last snapshot that was emitted to the collaborator.
///
/// A fresh monitor holds the all-defaults snapshot, so the first observed
/// snapshot is emitted exactly when it differs from the defaults.
pub struct Monitor {
    pub last_emitted: Snapshot,
}

impl Monitor {
    /// A monitor that has emitted nothing yet: its reference value is the
    /// all-defaults snapshot.
    pub fn new() -> (r: Monitor)
        ensures
            r.last_emitted@ == default_view(),
    {
        Monitor { last_emitted: Snapshot::default() }
    }

    /// One poll tick: compare the freshly built snapshot against the last
    /// emitted value. Returns true exactly when the new snapshot differs and
    /// must be emitted; the retained reference value afterwards always equals
    /// the observed snapshot.
    pub fn observe(&mut self, snap: Snapshot) -> (emit: bool)
        ensures
            emit == (snap@ != old(self).last_emitted@),
            final(self).last_emitted@ == snap@,
    {
        let changed = !snap.same_as(&self.last_emitted);
        self.last_emitted = snap;
        changed
    }
}

} // verus!
