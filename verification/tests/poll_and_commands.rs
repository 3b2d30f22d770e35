//! Behavior of the poll-cycle decision — idle backoff thresholds and the
//! failed-fetch path — and of command recognition.

use starbot::commands::is_challenge_command;
use starbot::commands::is_version_command;
use starbot::poll::ACTIVE_POLL_MILLIS;
use starbot::poll::IDLE_POLL_MILLIS;
use starbot::records::ActivitySnapshot;
use starbot::records::ChallengeRecord;
use starbot::records::GameRecord;
use starbot::tracker::ChangeTracker;

fn game(id: i64, turn_owner: &str, opponent: &str) -> GameRecord {
    GameRecord {
        id,
        turn_owner: turn_owner.to_string(),
        opponent_name: opponent.to_string(),
    }
}

fn snapshot_with_game(g: GameRecord) -> ActivitySnapshot {
    ActivitySnapshot { active_games: vec![g], challenges: vec![], finished_games: vec![] }
}

#[test]
fn backoff_threshold_is_thirty_minutes() {
    let tracker = ChangeTracker::new(0);
    // 29 minutes 59 seconds of quiet: still the active interval
    assert_eq!(tracker.next_poll_interval_millis(29 * 60_000 + 59_000), 5_000);
    // one millisecond under 30 minutes of quiet: still the active interval
    assert_eq!(tracker.next_poll_interval_millis(29 * 60_000 + 59_999), 5_000);
    // exactly 30 minutes: the idle interval
    assert_eq!(tracker.next_poll_interval_millis(30 * 60_000), 60_000);
    // beyond 30 minutes: still the idle interval
    assert_eq!(tracker.next_poll_interval_millis(45 * 60_000), 60_000);
    assert_eq!(ACTIVE_POLL_MILLIS, 5_000);
    assert_eq!(IDLE_POLL_MILLIS, 60_000);
}

#[test]
fn failed_fetch_changes_nothing_and_keeps_backoff() {
    let mut tracker = ChangeTracker::new(0);
    tracker.prime_from_snapshot(&snapshot_with_game(game(1, "Alice", "Bob")));

    // a failed fetch while quiet for over 30 minutes: idle interval
    let outcome = tracker.poll_cycle(None, 31 * 60_000);
    assert!(outcome.changes.turns.is_empty());
    assert!(outcome.changes.challenges.is_empty());
    assert!(outcome.changes.finished_games.is_empty());
    assert_eq!(outcome.next_interval_millis, 60_000);
    assert_eq!(tracker.last_change_timestamp_millis(), 0);
    assert_eq!(tracker.tracked_turn_owner(1).unwrap(), "Alice");

    // the loop goes on: the next successful cycle detects as usual
    let outcome = tracker.poll_cycle(Some(&snapshot_with_game(game(1, "Bob", "Alice"))), 32 * 60_000);
    assert_eq!(outcome.changes.turns.len(), 1);
    assert_eq!(outcome.changes.turns[0].turn_owner, "Bob");
    assert_eq!(outcome.next_interval_millis, 5_000);
    assert_eq!(tracker.last_change_timestamp_millis(), 32 * 60_000);

    // a failed fetch right after a change: active interval
    let outcome = tracker.poll_cycle(None, 32 * 60_000 + 5_000);
    assert_eq!(outcome.next_interval_millis, 5_000);
}

#[test]
fn poll_cycle_reports_all_three_categories() {
    let mut tracker = ChangeTracker::new(0);
    let snap = ActivitySnapshot {
        active_games: vec![game(1, "Alice", "Bob")],
        challenges: vec![ChallengeRecord {
            id: 42,
            challenger_name: "A".to_string(),
            opponent_name: "B".to_string(),
        }],
        finished_games: vec![],
    };
    let outcome = tracker.poll_cycle(Some(&snap), 7);
    assert_eq!(outcome.changes.turns.len(), 1);
    assert_eq!(outcome.changes.challenges.len(), 1);
    assert!(outcome.changes.finished_games.is_empty());
    assert_eq!(outcome.next_interval_millis, 5_000);
    assert_eq!(tracker.last_change_timestamp_millis(), 7);
}

#[test]
fn challenge_command_matches_exact_case_prefix() {
    assert!(is_challenge_command("!chal"));
    assert!(is_challenge_command("!challenges please"));
    assert!(!is_challenge_command("!Chal"));
    assert!(!is_challenge_command("chal"));
    assert!(!is_challenge_command("!cha"));
    assert!(!is_challenge_command(""));
    assert!(!is_challenge_command("say !chal"));
}

#[test]
fn version_command_matches_any_ascii_case() {
    assert!(is_version_command("!version"));
    assert!(is_version_command("!Version"));
    assert!(is_version_command("!VERSION now"));
    assert!(is_version_command("!vErSiOn"));
    assert!(!is_version_command("!versio"));
    assert!(!is_version_command("version"));
    assert!(!is_version_command("hello !version"));
}
