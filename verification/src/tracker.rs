//! The change tracker: the record of everything observed so far, and the
//! operations that compare a fresh snapshot against that record.
//!
//! The tracker keeps, per active game, the last observed turn owner; a game
//! is reported when it is seen for the first time or when its turn owner
//! differs from the recorded one, and every observation then overwrites the
//! record. Challenges and finished games are reported once, the first time
//! their id is seen. A timestamp of the last detected change drives the
//! caller's idle backoff: it moves to "now" exactly when an operation
//! reported at least one item.

use vstd::hash_map::HashMapWithView;
use vstd::prelude::*;

use crate::records::ActivitySnapshot;
use crate::records::ChallengeRecord;
use crate::records::FinishedGameRecord;
use crate::records::GameRecord;

verus! {

/// Record types that are reported once per id implement this to say which
/// field that id is.
pub trait SeenId {
    /// The id under which the record is remembered once reported.
    spec fn seen_id(&self) -> i64;
}

impl SeenId for ChallengeRecord {
    open spec fn seen_id(&self) -> i64 {
        self.id
    }
}

impl SeenId for FinishedGameRecord {
    open spec fn seen_id(&self) -> i64 {
        self.id
    }
}

/// Whether one observed game counts as changed against the recorded turn
/// owners: its id has never been seen, or the owner's name differs from the
/// recorded one.
pub open spec fn turn_changed(owners: Map<i64, String>, game: GameRecord) -> bool {
    !owners.contains_key(game.id) || owners[game.id]@ != game.turn_owner@
}

/// The recorded turn owners after absorbing the games of one snapshot in
/// order: every game's current owner overwrites the record for its id,
/// changed or not. Ids absent from the snapshot are never removed.
pub open spec fn turns_absorbed(owners: Map<i64, String>, games: Seq<GameRecord>) -> Map<
    i64,
    String,
>
    decreases games.len(),
{
    if games.len() == 0 {
        owners
    } else {
        turns_absorbed(owners.insert(games[0].id, games[0].turn_owner), games.drop_first())
    }
}

/// The games one snapshot reports, in snapshot order: each game is compared
/// against the record as absorbed up to that point, and is reported exactly
/// when [`turn_changed`] holds there.
pub open spec fn turn_reports(owners: Map<i64, String>, games: Seq<GameRecord>) -> Seq<GameRecord>
    decreases games.len(),
{
    if games.len() == 0 {
        Seq::empty()
    } else if turn_changed(owners, games[0]) {
        seq![games[0]] + turn_reports(
            owners.insert(games[0].id, games[0].turn_owner),
            games.drop_first(),
        )
    } else {
        turn_reports(owners.insert(games[0].id, games[0].turn_owner), games.drop_first())
    }
}

/// The seen ids after absorbing one snapshot's items in order: each id not
/// yet present is appended. An id, once present, is never removed.
pub open spec fn ids_absorbed<T: SeenId>(seen: Seq<i64>, items: Seq<T>) -> Seq<i64>
    decreases items.len(),
{
    if items.len() == 0 {
        seen
    } else if seen.contains(items[0].seen_id()) {
        ids_absorbed(seen, items.drop_first())
    } else {
        ids_absorbed(seen.push(items[0].seen_id()), items.drop_first())
    }
}

/// The items one snapshot reports, in snapshot order: each item whose id is
/// not among the seen ids absorbed up to that point is reported.
pub open spec fn fresh_reports<T: SeenId>(seen: Seq<i64>, items: Seq<T>) -> Seq<T>
    decreases items.len(),
{
    if items.len() == 0 {
        Seq::empty()
    } else if seen.contains(items[0].seen_id()) {
        fresh_reports(seen, items.drop_first())
    } else {
        seq![items[0]] + fresh_reports(seen.push(items[0].seen_id()), items.drop_first())
    }
}

/// The state carried from one observation to the next, and the operations
/// that both report what a snapshot adds and record that it was observed.
/// Nothing here performs any fetching: every operation is handed a snapshot
/// and the current time, and mutates the tracker in step with what it
/// returns.
pub struct ChangeTracker {
    game_turns: HashMapWithView<i64, String>,
    seen_challenges: Vec<i64>,
    seen_finished: Vec<i64>,
    last_change_millis: u64,
}

impl ChangeTracker {
    /// The last observed turn owner per game id.
    pub closed spec fn turn_owners(&self) -> Map<i64, String> {
        self.game_turns@
    }

    /// The challenge ids reported or absorbed so far, in first-seen order.
    pub closed spec fn seen_challenge_ids(&self) -> Seq<i64> {
        self.seen_challenges@
    }

    /// The finished-game ids reported or absorbed so far, in first-seen order.
    pub closed spec fn seen_finished_ids(&self) -> Seq<i64> {
        self.seen_finished@
    }

    /// The time, in the caller's milliseconds, of the last detected change.
    pub closed spec fn last_change_timestamp(&self) -> u64 {
        self.last_change_millis
    }

    /// A tracker that has observed nothing. `now_millis` seeds the change
    /// timestamp, so backoff starts counting from creation.
    pub fn new(now_millis: u64) -> (tracker: ChangeTracker)
        ensures
            tracker.turn_owners() == Map::<i64, String>::empty(),
            tracker.seen_challenge_ids() == Seq::<i64>::empty(),
            tracker.seen_finished_ids() == Seq::<i64>::empty(),
            tracker.last_change_timestamp() == now_millis,
    {
        ChangeTracker {
            game_turns: HashMapWithView::new(),
            seen_challenges: Vec::new(),
            seen_finished: Vec::new(),
            last_change_millis: now_millis,
        }
    }

    /// Reads the change timestamp, for the caller's backoff bookkeeping.
    pub fn last_change_timestamp_millis(&self) -> (t: u64)
        ensures
            t == self.last_change_timestamp(),
    {
        self.last_change_millis
    }

    /// The recorded turn owner for `game_id`, if that game has been
    /// observed at all.
    pub fn tracked_turn_owner(&self, game_id: i64) -> (owner: Option<&String>)
        ensures
            match owner {
                Some(name) => self.turn_owners().contains_key(game_id) && *name
                    == self.turn_owners()[game_id],
                None => !self.turn_owners().contains_key(game_id),
            },
    {
        self.game_turns.get(&game_id)
    }

    /// Whether a challenge with this id has been reported or absorbed.
    pub fn challenge_already_seen(&self, id: i64) -> (seen: bool)
        ensures
            seen == self.seen_challenge_ids().contains(id),
    {
        contains_id(&self.seen_challenges, id)
    }

    /// Whether a finished game with this id has been reported or absorbed.
    pub fn finished_already_seen(&self, id: i64) -> (seen: bool)
        ensures
            seen == self.seen_finished_ids().contains(id),
    {
        contains_id(&self.seen_finished, id)
    }

    /// Absorbs everything in `snapshot` without reporting anything: games,
    /// challenge ids and finished-game ids are recorded exactly as the
    /// detect operations would record them, but no report is produced and
    /// the change timestamp stays put. Called once, before the first poll,
    /// so that pre-existing activity is not reported as new.
    pub fn prime_from_snapshot(&mut self, snapshot: &ActivitySnapshot)
        ensures
            final(self).turn_owners() == turns_absorbed(
                old(self).turn_owners(),
                snapshot.active_games@,
            ),
            final(self).seen_challenge_ids() == ids_absorbed(
                old(self).seen_challenge_ids(),
                snapshot.challenges@,
            ),
            final(self).seen_finished_ids() == ids_absorbed(
                old(self).seen_finished_ids(),
                snapshot.finished_games@,
            ),
            final(self).last_change_timestamp() == old(self).last_change_timestamp(),
    {
        let ghost m0 = self.turn_owners();
        let ghost ch0 = self.seen_challenge_ids();
        let ghost fin0 = self.seen_finished_ids();
        let ghost ts0 = self.last_change_timestamp();
        let ghost games = snapshot.active_games@;
        proof {
            assert(games.skip(0) =~= games);
        }
        let mut i: usize = 0;
        while i < snapshot.active_games.len()
            invariant
                i <= snapshot.active_games.len(),
                games == snapshot.active_games@,
                turns_absorbed(self.turn_owners(), games.skip(i as int)) == turns_absorbed(
                    m0,
                    games,
                ),
                self.seen_challenge_ids() == ch0,
                self.seen_finished_ids() == fin0,
                self.last_change_timestamp() == ts0,
            decreases snapshot.active_games.len() - i,
        {
            let game = &snapshot.active_games[i];
            self.game_turns.insert(game.id, game.turn_owner.clone());
            proof {
                assert(games.skip(i as int).drop_first() =~= games.skip(i as int + 1));
            }
            i += 1;
        }
        let ghost chals = snapshot.challenges@;
        proof {
            assert(chals.skip(0) =~= chals);
        }
        let mut j: usize = 0;
        while j < snapshot.challenges.len()
            invariant
                j <= snapshot.challenges.len(),
                chals == snapshot.challenges@,
                ids_absorbed(self.seen_challenge_ids(), chals.skip(j as int)) == ids_absorbed(
                    ch0,
                    chals,
                ),
                self.turn_owners() == turns_absorbed(m0, games),
                self.seen_finished_ids() == fin0,
                self.last_change_timestamp() == ts0,
            decreases snapshot.challenges.len() - j,
        {
            let chal = &snapshot.challenges[j];
            if !contains_id(&self.seen_challenges, chal.id) {
                self.seen_challenges.push(chal.id);
            }
            proof {
                assert(chals.skip(j as int).drop_first() =~= chals.skip(j as int + 1));
            }
            j += 1;
        }
        let ghost fins = snapshot.finished_games@;
        proof {
            assert(fins.skip(0) =~= fins);
        }
        let mut k: usize = 0;
        while k < snapshot.finished_games.len()
            invariant
                k <= snapshot.finished_games.len(),
                fins == snapshot.finished_games@,
                ids_absorbed(self.seen_finished_ids(), fins.skip(k as int)) == ids_absorbed(
                    fin0,
                    fins,
                ),
                self.turn_owners() == turns_absorbed(m0, games),
                self.seen_challenge_ids() == ids_absorbed(ch0, chals),
                self.last_change_timestamp() == ts0,
            decreases snapshot.finished_games.len() - k,
        {
            let fin = &snapshot.finished_games[k];
            if !contains_id(&self.seen_finished, fin.id) {
                self.seen_finished.push(fin.id);
            }
            proof {
                assert(fins.skip(k as int).drop_first() =~= fins.skip(k as int + 1));
            }
            k += 1;
        }
    }

    /// Compares the snapshot's active games against the recorded turn
    /// owners and returns, in snapshot order, every game seen for the first
    /// time or whose turn owner changed. Every game's current owner then
    /// stands recorded, and the change timestamp moves to `now_millis`
    /// exactly when at least one game was reported.
    pub fn detect_turn_changes(&mut self, snapshot: &ActivitySnapshot, now_millis: u64) -> (changed:
        Vec<GameRecord>)
        requires
            old(self).last_change_timestamp() <= now_millis,
        ensures
            changed@ == turn_reports(old(self).turn_owners(), snapshot.active_games@),
            final(self).turn_owners() == turns_absorbed(
                old(self).turn_owners(),
                snapshot.active_games@,
            ),
            final(self).seen_challenge_ids() == old(self).seen_challenge_ids(),
            final(self).seen_finished_ids() == old(self).seen_finished_ids(),
            final(self).last_change_timestamp() == if changed@.len() > 0 {
                now_millis
            } else {
                old(self).last_change_timestamp()
            },
            old(self).last_change_timestamp() <= final(self).last_change_timestamp() <= now_millis,
    {
        let mut changed: Vec<GameRecord> = Vec::new();
        let ghost m0 = self.turn_owners();
        let ghost ch0 = self.seen_challenge_ids();
        let ghost fin0 = self.seen_finished_ids();
        let ghost ts0 = self.last_change_timestamp();
        let ghost games = snapshot.active_games@;
        proof {
            assert(games.skip(0) =~= games);
            assert(changed@ + turn_reports(m0, games) =~= turn_reports(m0, games));
        }
        let mut i: usize = 0;
        while i < snapshot.active_games.len()
            invariant
                i <= snapshot.active_games.len(),
                games == snapshot.active_games@,
                changed@ + turn_reports(self.turn_owners(), games.skip(i as int)) == turn_reports(
                    m0,
                    games,
                ),
                turns_absorbed(self.turn_owners(), games.skip(i as int)) == turns_absorbed(
                    m0,
                    games,
                ),
                self.seen_challenge_ids() == ch0,
                self.seen_finished_ids() == fin0,
                self.last_change_timestamp() == ts0,
            decreases snapshot.active_games.len() - i,
        {
            let game = &snapshot.active_games[i];
            let ghost m_here = self.turn_owners();
            let is_report = match self.game_turns.get(&game.id) {
                Some(owner) => *owner != game.turn_owner,
                None => true,
            };
            proof {
                assert(is_report == turn_changed(m_here, games[i as int]));
            }
            self.game_turns.insert(game.id, game.turn_owner.clone());
            if is_report {
                changed.push(game.clone());
            }
            proof {
                assert(games.skip(i as int).drop_first() =~= games.skip(i as int + 1));
                assert(games.skip(i as int)[0] == games[i as int]);
                if is_report {
                    assert(changed@ =~= changed@.drop_last() + seq![games[i as int]]);
                    assert(changed@.drop_last() + (seq![games[i as int]] + turn_reports(
                        self.turn_owners(),
                        games.skip(i as int + 1),
                    )) =~= changed@ + turn_reports(self.turn_owners(), games.skip(i as int + 1)));
                }
            }
            i += 1;
        }
        if changed.len() > 0 {
            self.last_change_millis = now_millis;
        }
        proof {
            assert(changed@ + turn_reports(self.turn_owners(), games.skip(
                snapshot.active_games@.len() as int,
            )) =~= changed@);
        }
        changed
    }

    /// Returns, in snapshot order, every challenge whose id has not been
    /// seen before, and records those ids as seen. The change timestamp
    /// moves to `now_millis` exactly when at least one challenge was
    /// reported.
    pub fn detect_new_challenges(&mut self, snapshot: &ActivitySnapshot, now_millis: u64) -> (fresh:
        Vec<ChallengeRecord>)
        requires
            old(self).last_change_timestamp() <= now_millis,
        ensures
            fresh@ == fresh_reports(old(self).seen_challenge_ids(), snapshot.challenges@),
            final(self).seen_challenge_ids() == ids_absorbed(
                old(self).seen_challenge_ids(),
                snapshot.challenges@,
            ),
            final(self).turn_owners() == old(self).turn_owners(),
            final(self).seen_finished_ids() == old(self).seen_finished_ids(),
            final(self).last_change_timestamp() == if fresh@.len() > 0 {
                now_millis
            } else {
                old(self).last_change_timestamp()
            },
            old(self).last_change_timestamp() <= final(self).last_change_timestamp() <= now_millis,
    {
        let mut fresh: Vec<ChallengeRecord> = Vec::new();
        let ghost m0 = self.turn_owners();
        let ghost ch0 = self.seen_challenge_ids();
        let ghost fin0 = self.seen_finished_ids();
        let ghost ts0 = self.last_change_timestamp();
        let ghost chals = snapshot.challenges@;
        proof {
            assert(chals.skip(0) =~= chals);
            assert(fresh@ + fresh_reports(ch0, chals) =~= fresh_reports(ch0, chals));
        }
        let mut i: usize = 0;
        while i < snapshot.challenges.len()
            invariant
                i <= snapshot.challenges.len(),
                chals == snapshot.challenges@,
                fresh@ + fresh_reports(self.seen_challenge_ids(), chals.skip(i as int))
                    == fresh_reports(ch0, chals),
                ids_absorbed(self.seen_challenge_ids(), chals.skip(i as int)) == ids_absorbed(
                    ch0,
                    chals,
                ),
                self.turn_owners() == m0,
                self.seen_finished_ids() == fin0,
                self.last_change_timestamp() == ts0,
            decreases snapshot.challenges.len() - i,
        {
            let chal = &snapshot.challenges[i];
            if !contains_id(&self.seen_challenges, chal.id) {
                self.seen_challenges.push(chal.id);
                fresh.push(chal.clone());
                proof {
                    assert(fresh@ =~= fresh@.drop_last() + seq![chals[i as int]]);
                    assert(fresh@.drop_last() + (seq![chals[i as int]] + fresh_reports(
                        self.seen_challenge_ids(),
                        chals.skip(i as int).drop_first(),
                    )) =~= fresh@ + fresh_reports(
                        self.seen_challenge_ids(),
                        chals.skip(i as int).drop_first(),
                    ));
                }
            }
            proof {
                assert(chals.skip(i as int).drop_first() =~= chals.skip(i as int + 1));
                assert(chals.skip(i as int)[0] == chals[i as int]);
            }
            i += 1;
        }
        if fresh.len() > 0 {
            self.last_change_millis = now_millis;
        }
        proof {
            assert(fresh@ + fresh_reports(self.seen_challenge_ids(), chals.skip(
                snapshot.challenges@.len() as int,
            )) =~= fresh@);
        }
        fresh
    }

    /// Returns, in snapshot order, every finished game whose id has not
    /// been seen before, and records those ids as seen. The change
    /// timestamp moves to `now_millis` exactly when at least one finished
    /// game was reported.
    pub fn detect_new_finished_games(
        &mut self,
        snapshot: &ActivitySnapshot,
        now_millis: u64,
    ) -> (fresh: Vec<FinishedGameRecord>)
        requires
            old(self).last_change_timestamp() <= now_millis,
        ensures
            fresh@ == fresh_reports(old(self).seen_finished_ids(), snapshot.finished_games@),
            final(self).seen_finished_ids() == ids_absorbed(
                old(self).seen_finished_ids(),
                snapshot.finished_games@,
            ),
            final(self).turn_owners() == old(self).turn_owners(),
            final(self).seen_challenge_ids() == old(self).seen_challenge_ids(),
            final(self).last_change_timestamp() == if fresh@.len() > 0 {
                now_millis
            } else {
                old(self).last_change_timestamp()
            },
            old(self).last_change_timestamp() <= final(self).last_change_timestamp() <= now_millis,
    {
        let mut fresh: Vec<FinishedGameRecord> = Vec::new();
        let ghost m0 = self.turn_owners();
        let ghost ch0 = self.seen_challenge_ids();
        let ghost fin0 = self.seen_finished_ids();
        let ghost ts0 = self.last_change_timestamp();
        let ghost fins = snapshot.finished_games@;
        proof {
            assert(fins.skip(0) =~= fins);
            assert(fresh@ + fresh_reports(fin0, fins) =~= fresh_reports(fin0, fins));
        }
        let mut i: usize = 0;
        while i < snapshot.finished_games.len()
            invariant
                i <= snapshot.finished_games.len(),
                fins == snapshot.finished_games@,
                fresh@ + fresh_reports(self.seen_finished_ids(), fins.skip(i as int))
                    == fresh_reports(fin0, fins),
                ids_absorbed(self.seen_finished_ids(), fins.skip(i as int)) == ids_absorbed(
                    fin0,
                    fins,
                ),
                self.turn_owners() == m0,
                self.seen_challenge_ids() == ch0,
                self.last_change_timestamp() == ts0,
            decreases snapshot.finished_games.len() - i,
        {
            let fin = &snapshot.finished_games[i];
            if !contains_id(&self.seen_finished, fin.id) {
                self.seen_finished.push(fin.id);
                fresh.push(fin.clone());
                proof {
                    assert(fresh@ =~= fresh@.drop_last() + seq![fins[i as int]]);
                    assert(fresh@.drop_last() + (seq![fins[i as int]] + fresh_reports(
                        self.seen_finished_ids(),
                        fins.skip(i as int).drop_first(),
                    )) =~= fresh@ + fresh_reports(
                        self.seen_finished_ids(),
                        fins.skip(i as int).drop_first(),
                    ));
                }
            }
            proof {
                assert(fins.skip(i as int).drop_first() =~= fins.skip(i as int + 1));
                assert(fins.skip(i as int)[0] == fins[i as int]);
            }
            i += 1;
        }
        if fresh.len() > 0 {
            self.last_change_millis = now_millis;
        }
        proof {
            assert(fresh@ + fresh_reports(self.seen_finished_ids(), fins.skip(
                snapshot.finished_games@.len() as int,
            )) =~= fresh@);
        }
        fresh
    }
}

/// Whether `id` occurs in `ids`.
fn contains_id(ids: &Vec<i64>, id: i64) -> (present: bool)
    ensures
        present == ids@.contains(id),
{
    let mut i: usize = 0;
    while i < ids.len()
        invariant
            i <= ids.len(),
            forall|j: int| 0 <= j < i ==> ids@[j] != id,
        decreases ids.len() - i,
    {
        if ids[i] == id {
            return true;
        }
        i += 1;
    }
    false
}

} // verus!
