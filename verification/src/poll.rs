//! One poll cycle as a decision: given what the fetch produced (or that it
//! failed) and the current time, report what is new and say how long to
//! sleep before the next cycle. The caller performs the fetch, delivers the
//! reported items in the order given, and sleeps for the returned interval.

use vstd::prelude::*;

use crate::records::ActivitySnapshot;
use crate::records::ChallengeRecord;
use crate::records::FinishedGameRecord;
use crate::records::GameRecord;
use crate::tracker::ChangeTracker;
use crate::tracker::fresh_reports;
use crate::tracker::ids_absorbed;
use crate::tracker::turn_reports;
use crate::tracker::turns_absorbed;

verus! {

/// Span without a detected change, in milliseconds, after which the tracker
/// counts as idle and polling slows down.
pub const IDLE_AFTER_MILLIS: u64 = 30 * 60 * 1000;

/// Poll interval, in milliseconds, while the tracker counts as idle.
pub const IDLE_POLL_MILLIS: u64 = 60 * 1000;

/// Poll interval, in milliseconds, while a change was detected recently.
pub const ACTIVE_POLL_MILLIS: u64 = 5 * 1000;

/// Everything one poll cycle reports, in the order the caller must deliver
/// it: turns first, then challenges, then finished games; within each list,
/// snapshot order.
pub struct DetectedChanges {
    /// Games whose turn owner is new or changed.
    pub turns: Vec<GameRecord>,
    /// Challenges seen for the first time.
    pub challenges: Vec<ChallengeRecord>,
    /// Finished games seen for the first time.
    pub finished_games: Vec<FinishedGameRecord>,
}

/// What one poll cycle decided: the changes to deliver and how long to
/// sleep before fetching again.
pub struct PollOutcome {
    /// The newly detected items, already recorded as observed.
    pub changes: DetectedChanges,
    /// Milliseconds to sleep before the next fetch.
    pub next_interval_millis: u64,
}

impl ChangeTracker {
    /// How long the next sleep lasts: the short active interval while a
    /// change was detected within the idle threshold, the long idle
    /// interval otherwise.
    pub fn next_poll_interval_millis(&self, now_millis: u64) -> (interval: u64)
        requires
            self.last_change_timestamp() <= now_millis,
        ensures
            interval == if now_millis - self.last_change_timestamp() >= IDLE_AFTER_MILLIS {
                IDLE_POLL_MILLIS
            } else {
                ACTIVE_POLL_MILLIS
            },
    {
        if now_millis - self.last_change_timestamp_millis() >= IDLE_AFTER_MILLIS {
            IDLE_POLL_MILLIS
        } else {
            ACTIVE_POLL_MILLIS
        }
    }

    /// One whole poll cycle. A failed fetch (`None`) changes nothing and
    /// reports nothing: the tracker is left exactly as it was, and the
    /// interval follows from the existing change timestamp. A fetched
    /// snapshot runs through the three detect operations in order, and the
    /// interval follows from the timestamp as they leave it — short
    /// whenever this cycle reported anything.
    pub fn poll_cycle(&mut self, fetched: Option<&ActivitySnapshot>, now_millis: u64) -> (outcome:
        PollOutcome)
        requires
            old(self).last_change_timestamp() <= now_millis,
        ensures
            old(self).last_change_timestamp() <= final(self).last_change_timestamp() <= now_millis,
            match fetched {
                None => {
                    &&& outcome.changes.turns@ == Seq::<GameRecord>::empty()
                    &&& outcome.changes.challenges@ == Seq::<ChallengeRecord>::empty()
                    &&& outcome.changes.finished_games@ == Seq::<FinishedGameRecord>::empty()
                    &&& final(self).turn_owners() == old(self).turn_owners()
                    &&& final(self).seen_challenge_ids() == old(self).seen_challenge_ids()
                    &&& final(self).seen_finished_ids() == old(self).seen_finished_ids()
                    &&& final(self).last_change_timestamp() == old(self).last_change_timestamp()
                },
                Some(snapshot) => {
                    &&& outcome.changes.turns@ == turn_reports(
                        old(self).turn_owners(),
                        snapshot.active_games@,
                    )
                    &&& outcome.changes.challenges@ == fresh_reports(
                        old(self).seen_challenge_ids(),
                        snapshot.challenges@,
                    )
                    &&& outcome.changes.finished_games@ == fresh_reports(
                        old(self).seen_finished_ids(),
                        snapshot.finished_games@,
                    )
                    &&& final(self).turn_owners() == turns_absorbed(
                        old(self).turn_owners(),
                        snapshot.active_games@,
                    )
                    &&& final(self).seen_challenge_ids() == ids_absorbed(
                        old(self).seen_challenge_ids(),
                        snapshot.challenges@,
                    )
                    &&& final(self).seen_finished_ids() == ids_absorbed(
                        old(self).seen_finished_ids(),
                        snapshot.finished_games@,
                    )
                    &&& final(self).last_change_timestamp() == if outcome.changes.turns@.len()
                        + outcome.changes.challenges@.len()
                        + outcome.changes.finished_games@.len() > 0 {
                        now_millis
                    } else {
                        old(self).last_change_timestamp()
                    }
                },
            },
            outcome.next_interval_millis == if now_millis - final(self).last_change_timestamp()
                >= IDLE_AFTER_MILLIS {
                IDLE_POLL_MILLIS
            } else {
                ACTIVE_POLL_MILLIS
            },
    {
        let changes = match fetched {
            None => DetectedChanges {
                turns: Vec::new(),
                challenges: Vec::new(),
                finished_games: Vec::new(),
            },
            Some(snapshot) => {
                let turns = self.detect_turn_changes(snapshot, now_millis);
                let challenges = self.detect_new_challenges(snapshot, now_millis);
                let finished_games = self.detect_new_finished_games(snapshot, now_millis);
                DetectedChanges { turns, challenges, finished_games }
            },
        };
        let next_interval_millis = self.next_poll_interval_millis(now_millis);
        PollOutcome { changes, next_interval_millis }
    }
}

} // verus!
