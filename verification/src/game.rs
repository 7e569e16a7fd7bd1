use crate::constants::{BASES_PER_PLAYER, TOTAL_ARMS, TOTAL_STARS};
use crate::error::Error;
use crate::identity::Identity;
use vstd::prelude::*;

verus! {

/// The record of one session.
#[derive(Clone, Debug, PartialEq, Eq)]
pub struct Game {
    pub player1: Identity,
    pub player2: Identity,
    pub player1_points: i128,
    pub player2_points: i128,
    /// Commitment to the hidden placement of player 1.
    pub player1_commitment: [u8; 32],
    /// Commitment to the hidden placement of player 2.
    pub player2_commitment: [u8; 32],
    /// Number of opponent bases that player 1 has found or destroyed.
    pub player1_found: u32,
    /// Number of opponent bases that player 2 has found or destroyed.
    pub player2_found: u32,
    /// Stars that player 1 has scanned, in the order of the scans.
    pub player1_scanned: Vec<u32>,
    /// Stars that player 2 has scanned, in the order of the scans.
    pub player2_scanned: Vec<u32>,
    /// Arms that player 1 has struck, in the order of the strikes.
    pub player1_arms_struck: Vec<u32>,
    /// Arms that player 2 has struck, in the order of the strikes.
    pub player2_arms_struck: Vec<u32>,
    /// The player who may submit the next turn-consuming action.
    pub current_turn: Identity,
    /// The winner, once the game has ended.
    pub winner: Option<Identity>,
}

/// What a game record holds, as mathematical values.
pub struct GameView {
    pub player1: Seq<u8>,
    pub player2: Seq<u8>,
    pub player1_points: i128,
    pub player2_points: i128,
    pub player1_commitment: Seq<u8>,
    pub player2_commitment: Seq<u8>,
    pub player1_found: u32,
    pub player2_found: u32,
    pub player1_scanned: Seq<u32>,
    pub player2_scanned: Seq<u32>,
    pub player1_arms_struck: Seq<u32>,
    pub player2_arms_struck: Seq<u32>,
    pub current_turn: Seq<u8>,
    pub winner: Option<Seq<u8>>,
}

/// Whether a history names each of its entries once, all of them below
/// `bound`.
pub open spec fn history_ok(history: Seq<u32>, bound: u32) -> bool {
    &&& history.no_duplicates()
    &&& forall|i: int| 0 <= i < history.len() ==> history[i] < bound
}

impl GameView {
    /// The invariant of a game record: two distinct players, the turn with
    /// one of them, histories without repetition, and a winner exactly when a
    /// player has found all the bases of the other.
    pub open spec fn wf(self) -> bool {
        &&& self.player1 != self.player2
        &&& self.player1_commitment.len() == 32
        &&& self.player2_commitment.len() == 32
        &&& (self.current_turn == self.player1 || self.current_turn == self.player2)
        &&& history_ok(self.player1_scanned, TOTAL_STARS)
        &&& history_ok(self.player2_scanned, TOTAL_STARS)
        &&& history_ok(self.player1_arms_struck, TOTAL_ARMS)
        &&& history_ok(self.player2_arms_struck, TOTAL_ARMS)
        &&& self.player1_found < 2 * BASES_PER_PLAYER
        &&& self.player2_found < 2 * BASES_PER_PLAYER
        &&& match self.winner {
            None => self.player1_found < BASES_PER_PLAYER && self.player2_found
                < BASES_PER_PLAYER,
            Some(w) => (w == self.player1 && self.player1_found >= BASES_PER_PLAYER
                && self.player2_found < BASES_PER_PLAYER) || (w == self.player2
                && self.player2_found >= BASES_PER_PLAYER && self.player1_found
                < BASES_PER_PLAYER),
        }
    }

    /// Whether `player` is one of the two participants.
    pub open spec fn is_participant(self, player: Seq<u8>) -> bool {
        player == self.player1 || player == self.player2
    }

    /// The number of bases that the given side has found.
    pub open spec fn found(self, is_player1: bool) -> u32 {
        if is_player1 {
            self.player1_found
        } else {
            self.player2_found
        }
    }

    /// The stars that the given side has scanned.
    pub open spec fn scanned(self, is_player1: bool) -> Seq<u32> {
        if is_player1 {
            self.player1_scanned
        } else {
            self.player2_scanned
        }
    }

    /// The arms that the given side has struck.
    pub open spec fn arms_struck(self, is_player1: bool) -> Seq<u32> {
        if is_player1 {
            self.player1_arms_struck
        } else {
            self.player2_arms_struck
        }
    }

    /// The commitment that the moves of the given side are checked against:
    /// that of the other side.
    pub open spec fn opponent_commitment(self, is_player1: bool) -> Seq<u8> {
        if is_player1 {
            self.player2_commitment
        } else {
            self.player1_commitment
        }
    }
}

/// The record of a session right after its creation: nothing found, nothing
/// scanned or struck, no winner, and the turn with player 1.
pub open spec fn initial_game(
    player1: Seq<u8>,
    player2: Seq<u8>,
    player1_points: i128,
    player2_points: i128,
    player1_commitment: Seq<u8>,
    player2_commitment: Seq<u8>,
) -> GameView {
    GameView {
        player1,
        player2,
        player1_points,
        player2_points,
        player1_commitment,
        player2_commitment,
        player1_found: 0,
        player2_found: 0,
        player1_scanned: Seq::empty(),
        player2_scanned: Seq::empty(),
        player1_arms_struck: Seq::empty(),
        player2_arms_struck: Seq::empty(),
        current_turn: player1,
        winner: None,
    }
}

/// The view of an identity that may be absent.
pub open spec fn identity_view(id: Option<Identity>) -> Option<Seq<u8>> {
    match id {
        Some(i) => Some(i@),
        None => None,
    }
}

impl View for Game {
    type V = GameView;

    open spec fn view(&self) -> GameView {
        GameView {
            player1: self.player1@,
            player2: self.player2@,
            player1_points: self.player1_points,
            player2_points: self.player2_points,
            player1_commitment: self.player1_commitment@,
            player2_commitment: self.player2_commitment@,
            player1_found: self.player1_found,
            player2_found: self.player2_found,
            player1_scanned: self.player1_scanned@,
            player2_scanned: self.player2_scanned@,
            player1_arms_struck: self.player1_arms_struck@,
            player2_arms_struck: self.player2_arms_struck@,
            current_turn: self.current_turn@,
            winner: identity_view(self.winner),
        }
    }
}

/// Copies a history.
pub fn copy_history(history: &Vec<u32>) -> (copy: Vec<u32>)
    ensures
        copy@ == history@,
{
    let mut copy: Vec<u32> = Vec::new();
    let mut i: usize = 0;
    while i < history.len()
        invariant
            i <= history.len(),
            copy@ == history@.take(i as int),
        decreases history.len() - i,
    {
        copy.push(history[i]);
        assert(history@.take(i as int).push(history@[i as int]) =~= history@.take(i + 1));
        i += 1;
    }
    assert(history@.take(history.len() as int) =~= history@);
    copy
}

/// Whether `value` occurs in `history`.
pub fn history_contains(history: &Vec<u32>, value: u32) -> (found: bool)
    ensures
        found == history@.contains(value),
{
    let mut i: usize = 0;
    while i < history.len()
        invariant
            i <= history.len(),
            forall|j: int| 0 <= j < i ==> history@[j] != value,
        decreases history.len() - i,
    {
        if history[i] == value {
            return true;
        }
        i += 1;
    }
    false
}

/// Whether a history names each of its entries once, all of them below
/// `bound`.
pub fn check_history(history: &Vec<u32>, bound: u32) -> (ok: bool)
    ensures
        ok == history_ok(history@, bound),
{
    let mut i: usize = 0;
    while i < history.len()
        invariant
            i <= history.len(),
            history_ok(history@.take(i as int), bound),
        decreases history.len() - i,
    {
        let value: u32 = history[i];
        if value >= bound {
            return false;
        }
        let mut j: usize = 0;
        while j < i
            invariant
                j <= i,
                i < history.len(),
                value == history@[i as int],
                forall|k: int| 0 <= k < j ==> history@[k] != value,
            decreases i - j,
        {
            if history[j] == value {
                assert(history@[j as int] == history@[i as int]);
                return false;
            }
            j += 1;
        }
        assert(history@.take(i + 1) =~= history@.take(i as int).push(value));
        i += 1;
    }
    assert(history@.take(history.len() as int) =~= history@);
    true
}

impl Game {
    /// Creates the record of a new session. Two players with the same
    /// identity are refused.
    pub fn new(
        player1: Identity,
        player2: Identity,
        player1_points: i128,
        player2_points: i128,
        player1_commitment: [u8; 32],
        player2_commitment: [u8; 32],
    ) -> (r: Result<Game, Error>)
        ensures
            player1@ == player2@ ==> r == Err::<Game, Error>(Error::SelfPlay),
            player1@ != player2@ ==> r is Ok && r->Ok_0@ == initial_game(
                player1@,
                player2@,
                player1_points,
                player2_points,
                player1_commitment@,
                player2_commitment@,
            ) && r->Ok_0@.wf(),
    {
        if player1.same_as(&player2) {
            return Err(Error::SelfPlay);
        }
        let current_turn = player1.duplicate();
        let game = Game {
            player1,
            player2,
            player1_points,
            player2_points,
            player1_commitment,
            player2_commitment,
            player1_found: 0,
            player2_found: 0,
            player1_scanned: Vec::new(),
            player2_scanned: Vec::new(),
            player1_arms_struck: Vec::new(),
            player2_arms_struck: Vec::new(),
            current_turn,
            winner: None,
        };
        assert(game@ =~= initial_game(
            player1@,
            player2@,
            player1_points,
            player2_points,
            player1_commitment@,
            player2_commitment@,
        ));
        Ok(game)
    }

    /// A copy of the record.
    pub fn duplicate(&self) -> (copy: Game)
        ensures
            copy@ == self@,
    {
        let winner = match &self.winner {
            Some(w) => Some(w.duplicate()),
            None => None,
        };
        let copy = Game {
            player1: self.player1.duplicate(),
            player2: self.player2.duplicate(),
            player1_points: self.player1_points,
            player2_points: self.player2_points,
            player1_commitment: self.player1_commitment,
            player2_commitment: self.player2_commitment,
            player1_found: self.player1_found,
            player2_found: self.player2_found,
            player1_scanned: copy_history(&self.player1_scanned),
            player2_scanned: copy_history(&self.player2_scanned),
            player1_arms_struck: copy_history(&self.player1_arms_struck),
            player2_arms_struck: copy_history(&self.player2_arms_struck),
            current_turn: self.current_turn.duplicate(),
            winner,
        };
        assert(copy@ =~= self@);
        copy
    }

    /// Whether the record meets the invariant of a game record.
    pub fn is_well_formed(&self) -> (ok: bool)
        ensures
            ok == self@.wf(),
    {
        let turn_ok = self.current_turn.same_as(&self.player1) || self.current_turn.same_as(
            &self.player2,
        );
        let winner_ok = match &self.winner {
            None => self.player1_found < BASES_PER_PLAYER && self.player2_found
                < BASES_PER_PLAYER,
            Some(w) => (w.same_as(&self.player1) && self.player1_found >= BASES_PER_PLAYER
                && self.player2_found < BASES_PER_PLAYER) || (w.same_as(&self.player2)
                && self.player2_found >= BASES_PER_PLAYER && self.player1_found
                < BASES_PER_PLAYER),
        };
        !self.player1.same_as(&self.player2) && turn_ok && winner_ok && self.player1_found < 2
            * BASES_PER_PLAYER && self.player2_found < 2 * BASES_PER_PLAYER && check_history(
            &self.player1_scanned,
            TOTAL_STARS,
        ) && check_history(&self.player2_scanned, TOTAL_STARS) && check_history(
            &self.player1_arms_struck,
            TOTAL_ARMS,
        ) && check_history(&self.player2_arms_struck, TOTAL_ARMS)
    }

    /// Which side `player` plays: `Some(true)` for player 1, `Some(false)`
    /// for player 2, `None` for anyone else.
    pub fn side_of(&self, player: &Identity) -> (side: Option<bool>)
        ensures
            side == if player@ == self@.player1 {
                Some(true)
            } else if player@ == self@.player2 {
                Some(false)
            } else {
                None
            },
    {
        if player.same_as(&self.player1) {
            Some(true)
        } else if player.same_as(&self.player2) {
            Some(false)
        } else {
            None
        }
    }

    /// The scan history of `player`, or `NotPlayer` for anyone but the two
    /// participants.
    pub fn scans_of(&self, player: &Identity) -> (r: Result<Vec<u32>, Error>)
        ensures
            self@.is_participant(player@) ==> r is Ok && r->Ok_0@ == self@.scanned(
                player@ == self@.player1,
            ),
            !self@.is_participant(player@) ==> r == Err::<Vec<u32>, Error>(Error::NotPlayer),
    {
        match self.side_of(player) {
            Some(true) => Ok(copy_history(&self.player1_scanned)),
            Some(false) => Ok(copy_history(&self.player2_scanned)),
            None => Err(Error::NotPlayer),
        }
    }

    /// The strike history of `player`, or `NotPlayer` for anyone but the two
    /// participants.
    pub fn strikes_of(&self, player: &Identity) -> (r: Result<Vec<u32>, Error>)
        ensures
            self@.is_participant(player@) ==> r is Ok && r->Ok_0@ == self@.arms_struck(
                player@ == self@.player1,
            ),
            !self@.is_participant(player@) ==> r == Err::<Vec<u32>, Error>(Error::NotPlayer),
    {
        match self.side_of(player) {
            Some(true) => Ok(copy_history(&self.player1_arms_struck)),
            Some(false) => Ok(copy_history(&self.player2_arms_struck)),
            None => Err(Error::NotPlayer),
        }
    }

    /// The found-count of `player`, or `NotPlayer` for anyone but the two
    /// participants.
    pub fn found_count_of(&self, player: &Identity) -> (r: Result<u32, Error>)
        ensures
            self@.is_participant(player@) ==> r == Ok::<u32, Error>(
                self@.found(player@ == self@.player1),
            ),
            !self@.is_participant(player@) ==> r == Err::<u32, Error>(Error::NotPlayer),
    {
        match self.side_of(player) {
            Some(true) => Ok(self.player1_found),
            Some(false) => Ok(self.player2_found),
            None => Err(Error::NotPlayer),
        }
    }

    /// Whether the game has ended and which side won: `Some(true)` where
    /// player 1 is the winner, `Some(false)` where player 2 is, `None` while
    /// the game is active.
    pub fn player1_won(&self) -> (won: Option<bool>)
        ensures
            won == match self@.winner {
                None => None,
                Some(w) => Some(w == self@.player1),
            },
    {
        match &self.winner {
            None => None,
            Some(w) => Some(w.same_as(&self.player1)),
        }
    }
}

} // verus!
