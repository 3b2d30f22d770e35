//! The plain-value shapes in which one snapshot of the remote game service
//! reaches the tracker: active games with their current turn owner, pending
//! challenges, and finished games. The caller builds these from whatever the
//! service hands back; the tracker only reads ids and turn owners and hands
//! whole records through to its reports.

use vstd::prelude::*;

verus! {

/// One active game as a snapshot shows it: who owns the turn right now, and
/// the display and auth strings a notification about this game needs.
#[derive(Debug)]
pub struct GameRecord {
    /// Identifier of the game, unique among active games of one snapshot.
    pub id: i64,
    /// Name of the participant whose action is currently awaited. Turn
    /// detection compares successive observations of this string; nothing
    /// else about the game takes part in the comparison.
    pub turn_owner: String,
    /// Name of the turn owner's opponent, carried through for presentation.
    pub opponent_name: String,
}

/// One pending challenge as a snapshot shows it.
#[derive(Debug)]
pub struct ChallengeRecord {
    /// Identifier of the challenge, unique among challenges.
    pub id: i64,
    /// Name of the participant who issued the challenge.
    pub challenger_name: String,
    /// Name of the participant being challenged.
    pub opponent_name: String,
}

/// One finished game as a snapshot shows it.
#[derive(Debug)]
pub struct FinishedGameRecord {
    /// Identifier of the game, unique among finished games.
    pub id: i64,
    /// Name of the first participant.
    pub p1_name: String,
    /// Name of the second participant.
    pub p2_name: String,
}

/// Everything one fetch of the remote service's current activity returns.
/// No identity persists from one snapshot to the next except through the
/// integer ids of games and challenges.
#[derive(Debug)]
pub struct ActivitySnapshot {
    /// Games currently in progress, in the service's iteration order.
    pub active_games: Vec<GameRecord>,
    /// Challenges currently pending, in the service's iteration order.
    pub challenges: Vec<ChallengeRecord>,
    /// Games recently finished, in the service's iteration order.
    pub finished_games: Vec<FinishedGameRecord>,
}

impl Clone for GameRecord {
    fn clone(&self) -> (other: GameRecord)
        ensures
            other == *self,
    {
        GameRecord {
            id: self.id,
            turn_owner: self.turn_owner.clone(),
            opponent_name: self.opponent_name.clone(),
        }
    }
}

impl Clone for ChallengeRecord {
    fn clone(&self) -> (other: ChallengeRecord)
        ensures
            other == *self,
    {
        ChallengeRecord {
            id: self.id,
            challenger_name: self.challenger_name.clone(),
            opponent_name: self.opponent_name.clone(),
        }
    }
}

impl Clone for FinishedGameRecord {
    fn clone(&self) -> (other: FinishedGameRecord)
        ensures
            other == *self,
    {
        FinishedGameRecord {
            id: self.id,
            p1_name: self.p1_name.clone(),
            p2_name: self.p2_name.clone(),
        }
    }
}

} // verus!
