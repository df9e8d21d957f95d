use mute_puck::state::State;
use mute_puck::tracker::StreamTracker;

#[test]
fn new_tracker_votes_silent() {
    let t = StreamTracker::new();
    assert_eq!(t.vote(), State::Silent);
    assert!(t.ids().is_empty());
}

#[test]
fn add_tracks_unmuted_by_default() {
    let mut t = StreamTracker::new();
    let st = t.add(42);
    assert_eq!(st, State::Unmuted);
    assert_eq!(t.ids(), vec![42]);
}

#[test]
fn update_mute_flips_the_vote() {
    let mut t = StreamTracker::new();
    t.add(1);
    assert_eq!(t.update_mute(1, true), Some(State::Muted));
    assert_eq!(t.update_mute(1, false), Some(State::Unmuted));
}

#[test]
fn disagreement_votes_confused() {
    let mut t = StreamTracker::new();
    t.add(1);
    t.add(2);
    assert_eq!(t.update_mute(1, true), Some(State::Confused));
}

#[test]
fn update_mute_on_unknown_id_is_a_no_op() {
    let mut t = StreamTracker::new();
    t.add(1);
    t.update_mute(1, true);
    // Unknown id: no message, no change to the vote or the set.
    assert_eq!(t.update_mute(99, false), None);
    assert_eq!(t.vote(), State::Muted);
    assert_eq!(t.ids(), vec![1]);
}

#[test]
fn remove_on_unknown_id_is_a_no_op() {
    let mut t = StreamTracker::new();
    t.add(1);
    assert_eq!(t.remove(99), None);
    assert_eq!(t.vote(), State::Unmuted);
    assert_eq!(t.ids(), vec![1]);
}

#[test]
fn unknown_id_on_empty_tracker_is_a_no_op() {
    let mut t = StreamTracker::new();
    assert_eq!(t.update_mute(7, true), None);
    assert_eq!(t.remove(7), None);
    assert_eq!(t.vote(), State::Silent);
}

#[test]
fn re_adding_a_known_id_resets_its_flag() {
    let mut t = StreamTracker::new();
    t.add(5);
    t.update_mute(5, true);
    assert_eq!(t.vote(), State::Muted);
    assert_eq!(t.add(5), State::Unmuted);
    assert_eq!(t.ids(), vec![5]);
}

#[test]
fn confused_recovers_when_the_set_changes() {
    let mut t = StreamTracker::new();
    t.add(1);
    t.add(2);
    assert_eq!(t.update_mute(2, true), Some(State::Confused));
    // Removing the disagreeing stream recomputes from scratch.
    assert_eq!(t.remove(1), Some(State::Muted));
    assert_eq!(t.remove(2), Some(State::Silent));
}

#[test]
fn confused_recovers_towards_unmuted_too() {
    let mut t = StreamTracker::new();
    t.add(1);
    t.add(2);
    t.update_mute(1, true);
    assert_eq!(t.vote(), State::Confused);
    assert_eq!(t.remove(1), Some(State::Unmuted));
}

#[test]
fn remove_then_matching_update_stays_silent() {
    // An in-flight property notification may arrive after its stream
    // was removed; it must not resurrect the stream.
    let mut t = StreamTracker::new();
    t.add(3);
    assert_eq!(t.remove(3), Some(State::Silent));
    assert_eq!(t.update_mute(3, true), None);
    assert_eq!(t.vote(), State::Silent);
}

#[test]
fn ids_lists_every_tracked_stream_once() {
    let mut t = StreamTracker::new();
    t.add(10);
    t.add(20);
    t.add(30);
    t.remove(20);
    let mut ids = t.ids();
    ids.sort();
    assert_eq!(ids, vec![10, 30]);
}
