//! Behavior of the change tracker across whole snapshots: priming, turn
//! changes, first-time challenges and finished games, and the change
//! timestamp.

use starbot::records::ActivitySnapshot;
use starbot::records::ChallengeRecord;
use starbot::records::FinishedGameRecord;
use starbot::records::GameRecord;
use starbot::tracker::ChangeTracker;

fn game(id: i64, turn_owner: &str, opponent: &str) -> GameRecord {
    GameRecord {
        id,
        turn_owner: turn_owner.to_string(),
        opponent_name: opponent.to_string(),
    }
}

fn challenge(id: i64, challenger: &str, opponent: &str) -> ChallengeRecord {
    ChallengeRecord {
        id,
        challenger_name: challenger.to_string(),
        opponent_name: opponent.to_string(),
    }
}

fn finished(id: i64, p1: &str, p2: &str) -> FinishedGameRecord {
    FinishedGameRecord {
        id,
        p1_name: p1.to_string(),
        p2_name: p2.to_string(),
    }
}

fn snapshot(
    games: Vec<GameRecord>,
    challenges: Vec<ChallengeRecord>,
    finished_games: Vec<FinishedGameRecord>,
) -> ActivitySnapshot {
    ActivitySnapshot { active_games: games, challenges, finished_games }
}

fn empty_snapshot() -> ActivitySnapshot {
    snapshot(vec![], vec![], vec![])
}

#[test]
fn priming_suppresses_initial_noise() {
    let mut tracker = ChangeTracker::new(0);
    let s0 = snapshot(
        vec![game(1, "Alice", "Bob"), game(2, "Carol", "Dave")],
        vec![challenge(7, "Eve", "Frank")],
        vec![finished(9, "Gina", "Hank")],
    );
    tracker.prime_from_snapshot(&s0);
    assert_eq!(tracker.last_change_timestamp_millis(), 0);

    let turns = tracker.detect_turn_changes(&s0, 10);
    assert!(turns.is_empty());
    let challenges = tracker.detect_new_challenges(&s0, 10);
    assert!(challenges.is_empty());
    let finished_games = tracker.detect_new_finished_games(&s0, 10);
    assert!(finished_games.is_empty());
    assert_eq!(tracker.last_change_timestamp_millis(), 0);
}

#[test]
fn detecting_twice_reports_nothing_the_second_time() {
    let mut tracker = ChangeTracker::new(0);
    let s = snapshot(vec![game(1, "Alice", "Bob")], vec![], vec![]);
    let first = tracker.detect_turn_changes(&s, 5);
    assert_eq!(first.len(), 1);
    let second = tracker.detect_turn_changes(&s, 6);
    assert!(second.is_empty());
}

#[test]
fn new_game_is_reported_as_changed() {
    let mut tracker = ChangeTracker::new(0);
    let s = snapshot(vec![game(3, "Alice", "Bob")], vec![], vec![]);
    let turns = tracker.detect_turn_changes(&s, 5);
    assert_eq!(turns.len(), 1);
    assert_eq!(turns[0].id, 3);
    assert_eq!(turns[0].turn_owner, "Alice");
    assert_eq!(turns[0].opponent_name, "Bob");
}

#[test]
fn turn_change_scenario_alice_to_bob() {
    let mut tracker = ChangeTracker::new(0);
    tracker.prime_from_snapshot(&snapshot(vec![game(1, "Alice", "Bob")], vec![], vec![]));

    let second = snapshot(vec![game(1, "Bob", "Alice")], vec![], vec![]);
    let turns = tracker.detect_turn_changes(&second, 5);
    assert_eq!(turns.len(), 1);
    assert_eq!(turns[0].id, 1);
    assert_eq!(turns[0].turn_owner, "Bob");

    let turns_again = tracker.detect_turn_changes(&second, 6);
    assert!(turns_again.is_empty());
}

#[test]
fn one_turn_change_reported_once_across_polls() {
    let mut tracker = ChangeTracker::new(0);
    tracker.prime_from_snapshot(&snapshot(vec![game(1, "Alice", "Bob")], vec![], vec![]));

    let polls = [
        snapshot(vec![game(1, "Alice", "Bob")], vec![], vec![]),
        snapshot(vec![game(1, "Bob", "Alice")], vec![], vec![]),
        snapshot(vec![game(1, "Bob", "Alice")], vec![], vec![]),
        snapshot(vec![game(1, "Bob", "Alice")], vec![], vec![]),
    ];
    let mut reports_for_game_one = 0;
    let mut now = 10;
    for poll in polls.iter() {
        let turns = tracker.detect_turn_changes(poll, now);
        reports_for_game_one += turns.iter().filter(|t| t.id == 1).count();
        now += 10;
    }
    assert_eq!(reports_for_game_one, 1);
}

#[test]
fn challenge_scenario_reported_once_then_new_one() {
    let mut tracker = ChangeTracker::new(0);
    tracker.prime_from_snapshot(&empty_snapshot());

    let with_42 = snapshot(vec![], vec![challenge(42, "A", "B")], vec![]);
    let first = tracker.detect_new_challenges(&with_42, 5);
    assert_eq!(first.len(), 1);
    assert_eq!(first[0].id, 42);
    assert_eq!(first[0].challenger_name, "A");
    assert_eq!(first[0].opponent_name, "B");

    let repeat = tracker.detect_new_challenges(&with_42, 6);
    assert!(repeat.is_empty());

    let with_43 = snapshot(
        vec![],
        vec![challenge(42, "A", "B"), challenge(43, "C", "D")],
        vec![],
    );
    let third = tracker.detect_new_challenges(&with_43, 7);
    assert_eq!(third.len(), 1);
    assert_eq!(third[0].id, 43);
}

#[test]
fn finished_games_reported_once() {
    let mut tracker = ChangeTracker::new(0);
    let s = snapshot(vec![], vec![], vec![finished(5, "P1", "P2")]);
    let first = tracker.detect_new_finished_games(&s, 5);
    assert_eq!(first.len(), 1);
    assert_eq!(first[0].id, 5);
    assert_eq!(first[0].p1_name, "P1");
    assert_eq!(first[0].p2_name, "P2");
    assert!(tracker.finished_already_seen(5));

    let again = tracker.detect_new_finished_games(&s, 6);
    assert!(again.is_empty());
}

#[test]
fn reports_keep_snapshot_order() {
    let mut tracker = ChangeTracker::new(0);
    let s = snapshot(
        vec![game(2, "A", "B"), game(1, "C", "D")],
        vec![challenge(9, "E", "F"), challenge(4, "G", "H")],
        vec![],
    );
    let turns = tracker.detect_turn_changes(&s, 5);
    assert_eq!(turns.iter().map(|t| t.id).collect::<Vec<_>>(), vec![2, 1]);
    let challenges = tracker.detect_new_challenges(&s, 5);
    assert_eq!(challenges.iter().map(|c| c.id).collect::<Vec<_>>(), vec![9, 4]);
}

#[test]
fn timestamp_advances_only_on_detected_changes() {
    let mut tracker = ChangeTracker::new(100);
    assert_eq!(tracker.last_change_timestamp_millis(), 100);

    let quiet = empty_snapshot();
    tracker.detect_turn_changes(&quiet, 200);
    assert_eq!(tracker.last_change_timestamp_millis(), 100);

    let busy = snapshot(vec![game(1, "Alice", "Bob")], vec![], vec![]);
    tracker.detect_turn_changes(&busy, 300);
    assert_eq!(tracker.last_change_timestamp_millis(), 300);

    tracker.detect_turn_changes(&busy, 400);
    assert_eq!(tracker.last_change_timestamp_millis(), 300);

    tracker.detect_new_challenges(&quiet, 500);
    assert_eq!(tracker.last_change_timestamp_millis(), 300);
}

#[test]
fn empty_snapshot_reports_nothing() {
    let mut tracker = ChangeTracker::new(0);
    let quiet = empty_snapshot();
    assert!(tracker.detect_turn_changes(&quiet, 1).is_empty());
    assert!(tracker.detect_new_challenges(&quiet, 2).is_empty());
    assert!(tracker.detect_new_finished_games(&quiet, 3).is_empty());
    assert_eq!(tracker.last_change_timestamp_millis(), 0);
}

#[test]
fn duplicate_challenge_ids_in_one_snapshot_reported_once() {
    let mut tracker = ChangeTracker::new(0);
    let s = snapshot(
        vec![],
        vec![challenge(8, "A", "B"), challenge(8, "A", "B")],
        vec![],
    );
    let fresh = tracker.detect_new_challenges(&s, 5);
    assert_eq!(fresh.len(), 1);
    assert_eq!(fresh[0].id, 8);
}

#[test]
fn tracked_turn_owner_reflects_observations() {
    let mut tracker = ChangeTracker::new(0);
    assert!(tracker.tracked_turn_owner(1).is_none());
    tracker.prime_from_snapshot(&snapshot(vec![game(1, "Alice", "Bob")], vec![], vec![]));
    assert_eq!(tracker.tracked_turn_owner(1).unwrap(), "Alice");
    tracker.detect_turn_changes(&snapshot(vec![game(1, "Bob", "Alice")], vec![], vec![]), 5);
    assert_eq!(tracker.tracked_turn_owner(1).unwrap(), "Bob");
    assert!(tracker.challenge_already_seen(7) == false);
}

#[test]
fn games_missing_from_later_snapshots_stay_tracked() {
    let mut tracker = ChangeTracker::new(0);
    tracker.prime_from_snapshot(&snapshot(vec![game(1, "Alice", "Bob")], vec![], vec![]));
    tracker.detect_turn_changes(&empty_snapshot(), 5);
    assert_eq!(tracker.tracked_turn_owner(1).unwrap(), "Alice");
}
