use fono::snapshot::{Monitor, Snapshot};

fn titled(title: &str) -> Snapshot {
    let mut s = Snapshot::default();
    s.title = Some(title.to_string());
    s
}

#[test]
fn snapshot_equality_reflexive() {
    let a = titled("song");
    assert!(a.same_as(&a));
    let d = Snapshot::default();
    assert!(d.same_as(&d));
}

#[test]
fn snapshot_equality_symmetric() {
    let a = titled("song");
    let b = titled("song");
    let c = titled("other");
    assert!(a.same_as(&b));
    assert!(b.same_as(&a));
    assert!(!a.same_as(&c));
    assert!(!c.same_as(&a));
}

#[test]
fn snapshot_equality_transitive() {
    let a = titled("song");
    let b = titled("song");
    let c = titled("song");
    assert!(a.same_as(&b));
    assert!(b.same_as(&c));
    assert!(a.same_as(&c));
}

#[test]
fn snapshot_inequality_on_each_field() {
    let base = Snapshot::default();
    let mut playing = Snapshot::default();
    playing.playing = true;
    assert!(!base.same_as(&playing));
    let mut shuffled = Snapshot::default();
    shuffled.shuffle = true;
    assert!(!base.same_as(&shuffled));
    let mut positioned = Snapshot::default();
    positioned.position_ms = Some(0);
    assert!(!base.same_as(&positioned));
}

#[test]
fn monitor_emits_only_on_change() {
    let mut m = Monitor::new();
    // the first all-defaults snapshot equals the starting reference: no event
    assert!(!m.observe(Snapshot::default()));
    // a changed snapshot: exactly one event
    assert!(m.observe(titled("song")));
    // the same value again: suppressed
    assert!(!m.observe(titled("song")));
    // back to defaults: emitted once more
    assert!(m.observe(Snapshot::default()));
    assert!(!m.observe(Snapshot::default()));
}
