//! The properties the tracker is relied on for, stated and proved over the
//! same spec functions its operations promise: detection is idempotent, a
//! primed snapshot reports nothing, and one turn change is reported exactly
//! once across a whole run of polls.

use vstd::prelude::*;

use crate::records::ActivitySnapshot;
use crate::records::ChallengeRecord;
use crate::records::FinishedGameRecord;
use crate::records::GameRecord;
use crate::tracker::SeenId;
use crate::tracker::fresh_reports;
use crate::tracker::ids_absorbed;
use crate::tracker::turn_changed;
use crate::tracker::turn_reports;
use crate::tracker::turns_absorbed;

verus! {

/// Whether no two games of `games` share an id. Every snapshot the remote
/// service produces has this shape: a game id is unique among the active
/// games of one fetch.
pub open spec fn distinct_game_ids(games: Seq<GameRecord>) -> bool {
    forall|i: int, j: int| 0 <= i < j < games.len() ==> games[i].id != games[j].id
}

/// Absorbing games, none of which carries `id`, leaves the record for `id`
/// exactly as it was.
proof fn lemma_absorb_leaves_other_ids(owners: Map<i64, String>, games: Seq<GameRecord>, id: i64)
    requires
        forall|j: int| 0 <= j < games.len() ==> games[j].id != id,
    ensures
        turns_absorbed(owners, games).contains_key(id) == owners.contains_key(id),
        owners.contains_key(id) ==> turns_absorbed(owners, games)[id] == owners[id],
    decreases games.len(),
{
    if games.len() > 0 {
        let rest = games.drop_first();
        assert forall|j: int| 0 <= j < rest.len() implies rest[j].id != id by {
            assert(rest[j] == games[j + 1]);
        }
        lemma_absorb_leaves_other_ids(
            owners.insert(games[0].id, games[0].turn_owner),
            rest,
            id,
        );
    }
}

/// Law: turn detection is idempotent. Once a snapshot's games are absorbed
/// — by priming or by a previous detection — detecting against that same
/// snapshot reports nothing, because every game's recorded owner already
/// equals its current one.
pub proof fn lemma_turn_detection_idempotent(owners: Map<i64, String>, games: Seq<GameRecord>)
    requires
        distinct_game_ids(games),
    ensures
        turn_reports(turns_absorbed(owners, games), games) == Seq::<GameRecord>::empty(),
    decreases games.len(),
{
    if games.len() > 0 {
        let head = games[0];
        let rest = games.drop_first();
        let owners1 = owners.insert(head.id, head.turn_owner);
        let absorbed = turns_absorbed(owners, games);
        assert forall|j: int| 0 <= j < rest.len() implies rest[j].id != head.id by {
            assert(rest[j] == games[j + 1]);
        }
        lemma_absorb_leaves_other_ids(owners1, rest, head.id);
        assert(absorbed[head.id] == head.turn_owner);
        assert(!turn_changed(absorbed, head));
        assert(absorbed.insert(head.id, head.turn_owner) =~= absorbed);
        assert forall|i: int, j: int| 0 <= i < j < rest.len() implies rest[i].id != rest[j].id by {
            assert(rest[i] == games[i + 1]);
            assert(rest[j] == games[j + 1]);
        }
        lemma_turn_detection_idempotent(owners1, rest);
        assert(turns_absorbed(owners1, rest) == absorbed);
    }
}

/// An id already among the seen ids is still there after absorbing more
/// items.
proof fn lemma_absorbed_keeps_seen<T: SeenId>(seen: Seq<i64>, items: Seq<T>, x: i64)
    requires
        seen.contains(x),
    ensures
        ids_absorbed(seen, items).contains(x),
    decreases items.len(),
{
    if items.len() > 0 {
        let a = items[0].seen_id();
        if seen.contains(a) {
            lemma_absorbed_keeps_seen(seen, items.drop_first(), x);
        } else {
            let i = choose|i: int| 0 <= i < seen.len() && seen[i] == x;
            assert(seen.push(a)[i] == x);
            lemma_absorbed_keeps_seen(seen.push(a), items.drop_first(), x);
        }
    }
}

/// After absorbing a batch of items, the id of each of them is among the
/// seen ids.
proof fn lemma_absorbed_contains_item<T: SeenId>(seen: Seq<i64>, items: Seq<T>, j: int)
    requires
        0 <= j < items.len(),
    ensures
        ids_absorbed(seen, items).contains(items[j].seen_id()),
    decreases items.len(),
{
    let a = items[0].seen_id();
    let seen1 = if seen.contains(a) {
        seen
    } else {
        seen.push(a)
    };
    if j == 0 {
        if !seen.contains(a) {
            assert(seen.push(a)[seen.len() as int] == a);
        }
        lemma_absorbed_keeps_seen(seen1, items.drop_first(), a);
    } else {
        assert(items.drop_first()[j - 1] == items[j]);
        lemma_absorbed_contains_item(seen1, items.drop_first(), j - 1);
    }
}

/// Items whose ids are all already seen report nothing.
proof fn lemma_fresh_reports_all_seen<T: SeenId>(seen: Seq<i64>, items: Seq<T>)
    requires
        forall|j: int| 0 <= j < items.len() ==> seen.contains(#[trigger] items[j].seen_id()),
    ensures
        fresh_reports(seen, items) == Seq::<T>::empty(),
    decreases items.len(),
{
    if items.len() > 0 {
        let rest = items.drop_first();
        assert forall|j: int| 0 <= j < rest.len() implies seen.contains(
            #[trigger] rest[j].seen_id(),
        ) by {
            assert(rest[j] == items[j + 1]);
        }
        lemma_fresh_reports_all_seen(seen, rest);
    }
}

/// Law: first-time reporting is idempotent. Once a batch of items is
/// absorbed, detecting against the same batch reports nothing.
pub proof fn lemma_fresh_after_absorb<T: SeenId>(seen: Seq<i64>, items: Seq<T>)
    ensures
        fresh_reports(ids_absorbed(seen, items), items) == Seq::<T>::empty(),
{
    assert forall|j: int| 0 <= j < items.len() implies ids_absorbed(seen, items).contains(
        #[trigger] items[j].seen_id(),
    ) by {
        lemma_absorbed_contains_item(seen, items, j);
    }
    lemma_fresh_reports_all_seen(ids_absorbed(seen, items), items);
}

/// Law: priming suppresses initial noise. After a tracker absorbs a
/// snapshot, each of the three detect operations run against that same
/// snapshot reports nothing: no turn change, no challenge, no finished
/// game.
pub proof fn lemma_priming_suppresses_noise(
    owners: Map<i64, String>,
    seen_challenges: Seq<i64>,
    seen_finished: Seq<i64>,
    snapshot: ActivitySnapshot,
)
    requires
        distinct_game_ids(snapshot.active_games@),
    ensures
        turn_reports(turns_absorbed(owners, snapshot.active_games@), snapshot.active_games@)
            == Seq::<GameRecord>::empty(),
        fresh_reports(ids_absorbed(seen_challenges, snapshot.challenges@), snapshot.challenges@)
            == Seq::<ChallengeRecord>::empty(),
        fresh_reports(
            ids_absorbed(seen_finished, snapshot.finished_games@),
            snapshot.finished_games@,
        ) == Seq::<FinishedGameRecord>::empty(),
{
    lemma_turn_detection_idempotent(owners, snapshot.active_games@);
    lemma_fresh_after_absorb(seen_challenges, snapshot.challenges@);
    lemma_fresh_after_absorb(seen_finished, snapshot.finished_games@);
}

/// Law: a game id, once tracked, is never removed. Whatever later
/// snapshots show — including none of this game at all — absorbing them
/// keeps the id among the recorded turn owners.
pub proof fn lemma_tracked_ids_never_removed(
    owners: Map<i64, String>,
    games: Seq<GameRecord>,
    id: i64,
)
    requires
        owners.contains_key(id),
    ensures
        turns_absorbed(owners, games).contains_key(id),
    decreases games.len(),
{
    if games.len() > 0 {
        lemma_tracked_ids_never_removed(
            owners.insert(games[0].id, games[0].turn_owner),
            games.drop_first(),
            id,
        );
    }
}

/// Law: an id once seen is never reported again, whatever a later snapshot
/// shows under that id.
pub proof fn lemma_seen_id_never_reported_again<T: SeenId>(seen: Seq<i64>, items: Seq<T>, x: i64)
    requires
        seen.contains(x),
    ensures
        forall|j: int|
            0 <= j < fresh_reports(seen, items).len() ==> (#[trigger] fresh_reports(
                seen,
                items,
            )[j]).seen_id() != x,
    decreases items.len(),
{
    if items.len() > 0 {
        let a = items[0].seen_id();
        let rest = items.drop_first();
        let reports = fresh_reports(seen, items);
        if seen.contains(a) {
            lemma_seen_id_never_reported_again(seen, rest, x);
            assert(reports == fresh_reports(seen, rest));
        } else {
            assert(a != x);
            let i = choose|i: int| 0 <= i < seen.len() && seen[i] == x;
            assert(seen.push(a)[i] == x);
            lemma_seen_id_never_reported_again(seen.push(a), rest, x);
            let tail = fresh_reports(seen.push(a), rest);
            assert(reports == seq![items[0]] + tail);
            assert forall|j: int| 0 <= j < reports.len() implies (#[trigger] reports[j]).seen_id()
                != x by {
                if j == 0 {
                    assert(reports[j] == items[0]);
                } else {
                    assert(reports[j] == tail[j - 1]);
                }
            }
        }
    }
}

/// Whether some game of `games` carries `id`.
pub open spec fn has_game_id(games: Seq<GameRecord>, id: i64) -> bool {
    exists|j: int| 0 <= j < games.len() && games[j].id == id
}

/// The turn owner that `games` shows for the game `id` — meaningful when
/// `has_game_id(games, id)` holds and the ids of `games` are distinct.
pub open spec fn owner_shown(games: Seq<GameRecord>, id: i64) -> Seq<char> {
    games[choose|j: int| 0 <= j < games.len() && games[j].id == id].turn_owner@
}

/// In how many of the successive polls game `id` stands among the reported
/// turn changes, when the polls run against `owners` in order and each
/// absorbs its snapshot as the detect operation records it.
pub open spec fn times_reported(
    owners: Map<i64, String>,
    polls: Seq<Seq<GameRecord>>,
    id: i64,
) -> nat
    decreases polls.len(),
{
    if polls.len() == 0 {
        0
    } else {
        (if has_game_id(turn_reports(owners, polls[0]), id) {
            1nat
        } else {
            0nat
        }) + times_reported(turns_absorbed(owners, polls[0]), polls.drop_first(), id)
    }
}

/// A game id occurs in a concatenation exactly when it occurs in one of the
/// parts.
proof fn lemma_has_game_id_concat(a: Seq<GameRecord>, b: Seq<GameRecord>, id: i64)
    ensures
        has_game_id(a + b, id) == (has_game_id(a, id) || has_game_id(b, id)),
{
    if has_game_id(a + b, id) {
        let j = choose|j: int| 0 <= j < (a + b).len() && (a + b)[j].id == id;
        if j < a.len() {
            assert((a + b)[j] == a[j]);
        } else {
            assert((a + b)[j] == b[j - a.len()]);
        }
    }
    if has_game_id(a, id) {
        let j = choose|j: int| 0 <= j < a.len() && a[j].id == id;
        assert((a + b)[j] == a[j]);
    }
    if has_game_id(b, id) {
        let j = choose|j: int| 0 <= j < b.len() && b[j].id == id;
        assert((a + b)[a.len() + j] == b[j]);
    }
}

/// A poll that does not show game `id` does not report it either.
proof fn lemma_no_id_no_report(owners: Map<i64, String>, games: Seq<GameRecord>, id: i64)
    requires
        forall|j: int| 0 <= j < games.len() ==> (#[trigger] games[j]).id != id,
    ensures
        !has_game_id(turn_reports(owners, games), id),
    decreases games.len(),
{
    if games.len() > 0 {
        let head = games[0];
        let rest = games.drop_first();
        let owners1 = owners.insert(head.id, head.turn_owner);
        assert forall|j: int| 0 <= j < rest.len() implies (#[trigger] rest[j]).id != id by {
            assert(rest[j] == games[j + 1]);
        }
        lemma_no_id_no_report(owners1, rest, id);
        if turn_changed(owners, head) {
            lemma_has_game_id_concat(seq![head], turn_reports(owners1, rest), id);
            assert(seq![head][0] == head);
            assert(!has_game_id(seq![head], id));
        }
    }
}

/// What one poll does about game `id`, when the poll shows it: it reports
/// the game exactly when the shown owner differs from the recorded one, and
/// it leaves the shown owner recorded either way.
proof fn lemma_single_poll_report(owners: Map<i64, String>, games: Seq<GameRecord>, id: i64)
    requires
        distinct_game_ids(games),
        owners.contains_key(id),
        has_game_id(games, id),
    ensures
        has_game_id(turn_reports(owners, games), id) == (owner_shown(games, id) != owners[id]@),
        turns_absorbed(owners, games).contains_key(id),
        turns_absorbed(owners, games)[id]@ == owner_shown(games, id),
    decreases games.len(),
{
    let head = games[0];
    let rest = games.drop_first();
    let owners1 = owners.insert(head.id, head.turn_owner);
    let reports_rest = turn_reports(owners1, rest);
    assert forall|i: int, j: int| 0 <= i < j < rest.len() implies rest[i].id != rest[j].id by {
        assert(rest[i] == games[i + 1]);
        assert(rest[j] == games[j + 1]);
    }
    if head.id == id {
        let jj = choose|j: int| 0 <= j < games.len() && games[j].id == id;
        if jj != 0 {
            assert(games[0].id != games[jj].id);
            assert(false);
        }
        assert(owner_shown(games, id) == head.turn_owner@);
        assert forall|j: int| 0 <= j < rest.len() implies (#[trigger] rest[j]).id != id by {
            assert(rest[j] == games[j + 1]);
            assert(games[0].id != games[j + 1].id);
        }
        lemma_no_id_no_report(owners1, rest, id);
        if turn_changed(owners, head) {
            lemma_has_game_id_concat(seq![head], reports_rest, id);
            assert(seq![head][0] == head);
            assert(has_game_id(seq![head], id));
        }
        lemma_absorb_leaves_other_ids(owners1, rest, id);
        assert(turns_absorbed(owners, games)[id] == owners1[id]);
    } else {
        let w = choose|j: int| 0 <= j < games.len() && games[j].id == id;
        assert(w != 0);
        assert(rest[w - 1] == games[w]);
        assert(has_game_id(rest, id));
        lemma_single_poll_report(owners1, rest, id);
        // the owner shown for id is the same in games and in its tail
        let jj = choose|j: int| 0 <= j < games.len() && games[j].id == id;
        let kk = choose|j: int| 0 <= j < rest.len() && rest[j].id == id;
        assert(rest[kk] == games[kk + 1]);
        if kk + 1 != jj {
            assert(games[kk + 1].id == games[jj].id);
            assert(false);
        }
        assert(owner_shown(rest, id) == owner_shown(games, id));
        if turn_changed(owners, head) {
            lemma_has_game_id_concat(seq![head], reports_rest, id);
            assert(seq![head][0] == head);
            assert(!has_game_id(seq![head], id));
        }
    }
}

/// Polls that keep showing the recorded owner never report the game.
proof fn lemma_steady_game_never_reported(
    owners: Map<i64, String>,
    polls: Seq<Seq<GameRecord>>,
    id: i64,
)
    requires
        owners.contains_key(id),
        forall|i: int| 0 <= i < polls.len() ==> distinct_game_ids(#[trigger] polls[i]),
        forall|i: int| 0 <= i < polls.len() ==> has_game_id(#[trigger] polls[i], id),
        forall|i: int| 0 <= i < polls.len() ==> owner_shown(#[trigger] polls[i], id) == owners[id]@,
    ensures
        times_reported(owners, polls, id) == 0,
    decreases polls.len(),
{
    if polls.len() > 0 {
        let head = polls[0];
        let rest = polls.drop_first();
        let owners1 = turns_absorbed(owners, head);
        lemma_single_poll_report(owners, head, id);
        assert forall|i: int| 0 <= i < rest.len() implies distinct_game_ids(#[trigger] rest[i])
            && has_game_id(rest[i], id) && owner_shown(rest[i], id) == owners1[id]@ by {
            assert(rest[i] == polls[i + 1]);
        }
        lemma_steady_game_never_reported(owners1, rest, id);
    }
}

/// Law: no duplicate notification. Across a run of polls in which one
/// game's shown turn owner starts out as recorded, changes at one poll, and
/// keeps the changed value from then on — while the game stays in every
/// snapshot and each snapshot's game ids are distinct — exactly one of the
/// polls reports that game.
pub proof fn lemma_one_change_reported_once(
    owners: Map<i64, String>,
    polls: Seq<Seq<GameRecord>>,
    id: i64,
    change_at: int,
)
    requires
        owners.contains_key(id),
        forall|i: int| 0 <= i < polls.len() ==> distinct_game_ids(#[trigger] polls[i]),
        forall|i: int| 0 <= i < polls.len() ==> has_game_id(#[trigger] polls[i], id),
        0 <= change_at < polls.len(),
        forall|i: int|
            0 <= i < change_at ==> owner_shown(#[trigger] polls[i], id) == owners[id]@,
        forall|i: int|
            change_at <= i < polls.len() ==> owner_shown(#[trigger] polls[i], id) == owner_shown(
                polls[change_at],
                id,
            ),
        owner_shown(polls[change_at], id) != owners[id]@,
    ensures
        times_reported(owners, polls, id) == 1,
    decreases polls.len(),
{
    let head = polls[0];
    let rest = polls.drop_first();
    let owners1 = turns_absorbed(owners, head);
    lemma_single_poll_report(owners, head, id);
    if change_at == 0 {
        assert(has_game_id(turn_reports(owners, head), id));
        assert(owners1[id]@ == owner_shown(head, id));
        assert forall|i: int| 0 <= i < rest.len() implies distinct_game_ids(#[trigger] rest[i])
            && has_game_id(rest[i], id) && owner_shown(rest[i], id) == owners1[id]@ by {
            assert(rest[i] == polls[i + 1]);
        }
        lemma_steady_game_never_reported(owners1, rest, id);
    } else {
        assert(owner_shown(head, id) == owners[id]@);
        assert(!has_game_id(turn_reports(owners, head), id));
        assert(owners1[id]@ == owners[id]@);
        assert forall|i: int| 0 <= i < rest.len() implies distinct_game_ids(#[trigger] rest[i])
            && has_game_id(rest[i], id) by {
            assert(rest[i] == polls[i + 1]);
        }
        assert forall|i: int| 0 <= i < change_at - 1 implies owner_shown(
            #[trigger] rest[i],
            id,
        ) == owners1[id]@ by {
            assert(rest[i] == polls[i + 1]);
        }
        assert(rest[change_at - 1] == polls[change_at]);
        assert forall|i: int| change_at - 1 <= i < rest.len() implies owner_shown(
            #[trigger] rest[i],
            id,
        ) == owner_shown(rest[change_at - 1], id) by {
            assert(rest[i] == polls[i + 1]);
        }
        lemma_one_change_reported_once(owners1, rest, id, change_at - 1);
    }
}

} // verus!
