use discord_tui::ids::{GuildMarker, Id};
use discord_tui::request_lifecycle::{LastSelection, TimedRequestSet};

#[test]
fn last_selection_reports_changes_only() {
    let mut selection: LastSelection<GuildMarker> = LastSelection::default();
    assert!(selection.select(Id::new(1)));
    assert!(!selection.select(Id::new(1)));
    assert!(selection.select(Id::new(2)));
    selection.clear();
    assert!(selection.select(Id::new(2)));
}

#[test]
fn requests_are_remembered_once() {
    let mut set = TimedRequestSet::new(1_000, 8);
    assert!(set.insert(7, 100));
    assert!(set.contains(7));
    assert!(!set.insert(7, 200));
    set.remove(7);
    assert!(!set.contains(7));
    assert!(set.insert(7, 300));
}

#[test]
fn stale_requests_expire() {
    let mut set = TimedRequestSet::new(1_000, 8);
    assert!(set.insert(1, 0));
    assert!(set.insert(2, 500));
    set.prune(1_000);
    assert!(set.contains(1));
    set.prune(1_001);
    assert!(!set.contains(1));
    assert!(set.contains(2));
    // a request stamped after `now` counts as fresh
    assert!(set.insert(3, 5_000));
    set.prune(1_200);
    assert!(set.contains(3));
}

#[test]
fn the_oldest_requests_make_room() {
    let mut set = TimedRequestSet::new(10_000, 2);
    assert!(set.insert(1, 10));
    assert!(set.insert(2, 20));
    assert!(set.insert(3, 30));
    assert!(!set.contains(1));
    assert!(set.contains(2));
    assert!(set.contains(3));
}

#[test]
fn a_set_without_room_keeps_nothing() {
    let mut set = TimedRequestSet::new(10_000, 0);
    assert!(set.insert(1, 10));
    assert!(!set.contains(1));
}
