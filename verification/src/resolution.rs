use crate::constants::{
    ACTION_ARM_STRIKE, ACTION_DEEP_RADAR, ACTION_SOLAR_SCAN, BASES_PER_PLAYER, STARS_PER_ARM,
    TOTAL_STARS,
};
use crate::encoding::{build_public_inputs, public_inputs};
use crate::error::Error;
use crate::game::{history_contains, Game, GameView};
use crate::identity::Identity;
use crate::proof_check::{
    key_view, proof_error, verdict_error, verdict_under, verify_proof, ProofVerdict, PROOF_BYTES,
};
use vstd::prelude::*;

verus! {

/// The condition under which a request is refused before any record is
/// looked at: an unknown action, a star outside the galaxy, a result above
/// the number of bases, a proof of the wrong length, in this order.
pub open spec fn request_error(
    action_type: u32,
    target_id: u32,
    result_count: u32,
    proof_len: nat,
) -> Option<Error> {
    if action_type > ACTION_ARM_STRIKE {
        Some(Error::InvalidActionType)
    } else if target_id >= TOTAL_STARS {
        Some(Error::InvalidStarId)
    } else if result_count > BASES_PER_PLAYER {
        Some(Error::InvalidResultCount)
    } else if proof_len != PROOF_BYTES {
        Some(Error::InvalidProof)
    } else {
        None
    }
}

/// The condition under which `player` may not act on the game: the game has
/// ended, the turn is with the other player, or `player` takes no part.
pub open spec fn turn_error(game: GameView, player: Seq<u8>) -> Option<Error> {
    if game.winner is Some {
        Some(Error::GameAlreadyEnded)
    } else if game.current_turn != player {
        Some(Error::NotYourTurn)
    } else if !game.is_participant(player) {
        Some(Error::NotPlayer)
    } else {
        None
    }
}

/// The arm that holds a star.
pub open spec fn arm_of(target_id: u32) -> u32 {
    target_id / STARS_PER_ARM
}

/// The condition under which an action repeats an earlier one: a scan of a
/// star that the side has scanned, a strike on an arm that it has struck.
pub open spec fn replay_error(
    game: GameView,
    is_player1: bool,
    action_type: u32,
    target_id: u32,
) -> Option<Error> {
    if action_type == ACTION_SOLAR_SCAN && game.scanned(is_player1).contains(target_id) {
        Some(Error::StarAlreadyScanned)
    } else if action_type == ACTION_ARM_STRIKE && game.arms_struck(is_player1).contains(
        arm_of(target_id),
    ) {
        Some(Error::ArmAlreadyStruck)
    } else {
        None
    }
}

/// The first condition, if any, under which an action is refused before its
/// proof is looked at.
pub open spec fn precheck_error(
    game: Option<GameView>,
    player: Seq<u8>,
    action_type: u32,
    target_id: u32,
    result_count: u32,
    proof_len: nat,
) -> Option<Error> {
    if request_error(action_type, target_id, result_count, proof_len) is Some {
        request_error(action_type, target_id, result_count, proof_len)
    } else {
        match game {
            None => Some(Error::GameNotFound),
            Some(g) => if turn_error(g, player) is Some {
                turn_error(g, player)
            } else {
                replay_error(g, player == g.player1, action_type, target_id)
            },
        }
    }
}

/// The record after the history and the found-count of the acting side have
/// taken up an accepted action. A radar sweep records nothing.
pub open spec fn recorded(
    game: GameView,
    is_player1: bool,
    action_type: u32,
    target_id: u32,
    result_count: u32,
) -> GameView {
    if action_type == ACTION_SOLAR_SCAN {
        if is_player1 {
            GameView {
                player1_scanned: game.player1_scanned.push(target_id),
                player1_found: (game.player1_found + result_count) as u32,
                ..game
            }
        } else {
            GameView {
                player2_scanned: game.player2_scanned.push(target_id),
                player2_found: (game.player2_found + result_count) as u32,
                ..game
            }
        }
    } else if action_type == ACTION_ARM_STRIKE {
        if is_player1 {
            GameView {
                player1_arms_struck: game.player1_arms_struck.push(arm_of(target_id)),
                player1_found: (game.player1_found + result_count) as u32,
                ..game
            }
        } else {
            GameView {
                player2_arms_struck: game.player2_arms_struck.push(arm_of(target_id)),
                player2_found: (game.player2_found + result_count) as u32,
                ..game
            }
        }
    } else {
        game
    }
}

/// The record after an accepted action: the action is recorded; then the
/// acting side wins where it has found all the bases, and otherwise the turn
/// passes to the other side unless the action was a radar sweep.
pub open spec fn applied(
    game: GameView,
    is_player1: bool,
    action_type: u32,
    target_id: u32,
    result_count: u32,
) -> GameView {
    let after = recorded(game, is_player1, action_type, target_id, result_count);
    if after.found(is_player1) >= BASES_PER_PLAYER {
        GameView {
            winner: Some(
                if is_player1 {
                    game.player1
                } else {
                    game.player2
                },
            ),
            ..after
        }
    } else if action_type != ACTION_DEEP_RADAR {
        GameView {
            current_turn: if is_player1 {
                game.player2
            } else {
                game.player1
            },
            ..after
        }
    } else {
        after
    }
}

/// What becomes of a submitted action, given the verifier's verdict on its
/// proof: the first condition that refuses it, or the record after it.
pub open spec fn resolution(
    game: Option<GameView>,
    player: Seq<u8>,
    action_type: u32,
    target_id: u32,
    result_count: u32,
    proof_len: nat,
    verdict: ProofVerdict,
) -> Result<GameView, Error> {
    match precheck_error(game, player, action_type, target_id, result_count, proof_len) {
        Some(e) => Err(e),
        None => match proof_error(verdict) {
            Some(e) => Err(e),
            None => Ok(
                applied(
                    game->Some_0,
                    player == game->Some_0.player1,
                    action_type,
                    target_id,
                    result_count,
                ),
            ),
        },
    }
}

/// The public inputs that the proof of an action by `player` is checked
/// against: those of the action under the commitment of the opponent.
pub open spec fn action_inputs(
    game: GameView,
    player: Seq<u8>,
    action_type: u32,
    target_id: u32,
    neighbors: Seq<u32>,
    neighbor_count: u32,
    result_count: u32,
) -> Seq<u8> {
    public_inputs(
        game.opponent_commitment(player == game.player1),
        action_type,
        target_id,
        neighbors,
        neighbor_count,
        result_count,
    )
}

/// What becomes of a submitted action with its proof: the first condition
/// that refuses it before the proof is looked at, or else what the verdict
/// of the verifier on the proof makes of it.
pub open spec fn submission(
    game: Option<GameView>,
    vk: Option<Seq<u8>>,
    player: Seq<u8>,
    action_type: u32,
    target_id: u32,
    neighbors: Seq<u32>,
    neighbor_count: u32,
    result_count: u32,
    proof: Seq<u8>,
) -> Result<GameView, Error> {
    match precheck_error(game, player, action_type, target_id, result_count, proof.len()) {
        Some(e) => Err(e),
        None => resolution(
            game,
            player,
            action_type,
            target_id,
            result_count,
            proof.len(),
            verdict_under(
                vk,
                proof,
                action_inputs(
                    game->Some_0,
                    player,
                    action_type,
                    target_id,
                    neighbors,
                    neighbor_count,
                    result_count,
                ),
            ),
        ),
    }
}

/// The view of a game record that may be absent.
pub open spec fn game_view(game: Option<&Game>) -> Option<GameView> {
    match game {
        Some(g) => Some(g@),
        None => None,
    }
}

/// The view of the outcome of a resolution.
pub open spec fn outcome_view(outcome: Result<Game, Error>) -> Result<GameView, Error> {
    match outcome {
        Ok(g) => Ok(g@),
        Err(e) => Err(e),
    }
}

/// Checks what can be checked of a request without a game record.
pub fn validate_request(action_type: u32, target_id: u32, result_count: u32, proof_len: usize) -> (r:
    Result<(), Error>)
    ensures
        r == match request_error(action_type, target_id, result_count, proof_len as nat) {
            Some(e) => Err::<(), Error>(e),
            None => Ok::<(), Error>(()),
        },
{
    if action_type > ACTION_ARM_STRIKE {
        Err(Error::InvalidActionType)
    } else if target_id >= TOTAL_STARS {
        Err(Error::InvalidStarId)
    } else if result_count > BASES_PER_PLAYER {
        Err(Error::InvalidResultCount)
    } else if proof_len != PROOF_BYTES {
        Err(Error::InvalidProof)
    } else {
        Ok(())
    }
}

/// Checks an action against the record of its session, before its proof is
/// looked at, and tells which side acts: `true` for player 1.
pub fn precheck(
    game: Option<&Game>,
    player: &Identity,
    action_type: u32,
    target_id: u32,
    result_count: u32,
    proof_len: usize,
) -> (r: Result<bool, Error>)
    ensures
        r == match precheck_error(
            game_view(game),
            player@,
            action_type,
            target_id,
            result_count,
            proof_len as nat,
        ) {
            Some(e) => Err::<bool, Error>(e),
            None => Ok::<bool, Error>(player@ == game->Some_0@.player1),
        },
{
    match validate_request(action_type, target_id, result_count, proof_len) {
        Err(e) => {
            return Err(e);
        },
        Ok(()) => {},
    }
    let game = match game {
        None => {
            return Err(Error::GameNotFound);
        },
        Some(g) => g,
    };
    if game.winner.is_some() {
        return Err(Error::GameAlreadyEnded);
    }
    if !game.current_turn.same_as(player) {
        return Err(Error::NotYourTurn);
    }
    let is_player1 = match game.side_of(player) {
        None => {
            return Err(Error::NotPlayer);
        },
        Some(side) => side,
    };
    if action_type == ACTION_SOLAR_SCAN {
        let scanned = if is_player1 {
            &game.player1_scanned
        } else {
            &game.player2_scanned
        };
        if history_contains(scanned, target_id) {
            return Err(Error::StarAlreadyScanned);
        }
    } else if action_type == ACTION_ARM_STRIKE {
        let arms = if is_player1 {
            &game.player1_arms_struck
        } else {
            &game.player2_arms_struck
        };
        if history_contains(arms, target_id / STARS_PER_ARM) {
            return Err(Error::ArmAlreadyStruck);
        }
    }
    Ok(is_player1)
}

impl Game {
    /// Applies an accepted action of the given side to the record.
    pub fn apply_action(
        &mut self,
        is_player1: bool,
        action_type: u32,
        target_id: u32,
        result_count: u32,
    )
        requires
            old(self)@.wf(),
            old(self)@.winner is None,
            action_type <= ACTION_ARM_STRIKE,
            target_id < TOTAL_STARS,
            result_count <= BASES_PER_PLAYER,
            replay_error(old(self)@, is_player1, action_type, target_id) is None,
        ensures
            final(self)@ == applied(old(self)@, is_player1, action_type, target_id, result_count),
            final(self)@.wf(),
    {
        let arm: u32 = target_id / STARS_PER_ARM;
        if action_type == ACTION_SOLAR_SCAN {
            if is_player1 {
                self.player1_scanned.push(target_id);
                self.player1_found = self.player1_found + result_count;
            } else {
                self.player2_scanned.push(target_id);
                self.player2_found = self.player2_found + result_count;
            }
        } else if action_type == ACTION_ARM_STRIKE {
            if is_player1 {
                self.player1_arms_struck.push(arm);
                self.player1_found = self.player1_found + result_count;
            } else {
                self.player2_arms_struck.push(arm);
                self.player2_found = self.player2_found + result_count;
            }
        }
        assert(self@ =~= recorded(old(self)@, is_player1, action_type, target_id, result_count));
        let found: u32 = if is_player1 {
            self.player1_found
        } else {
            self.player2_found
        };
        if found >= BASES_PER_PLAYER {
            self.winner = Some(
                if is_player1 {
                    self.player1.duplicate()
                } else {
                    self.player2.duplicate()
                },
            );
        } else if action_type != ACTION_DEEP_RADAR {
            self.current_turn = if is_player1 {
                self.player2.duplicate()
            } else {
                self.player1.duplicate()
            };
        }
        assert(self@ =~= applied(old(self)@, is_player1, action_type, target_id, result_count));
    }
}

/// Concludes an action that no earlier condition refuses, given the verdict
/// on its proof. An accepted proof gives the record with the action applied;
/// any other verdict gives the condition it is reported as.
pub fn settle(
    game: &Game,
    is_player1: bool,
    action_type: u32,
    target_id: u32,
    result_count: u32,
    verdict: ProofVerdict,
) -> (r: Result<Game, Error>)
    requires
        game@.wf(),
        game@.winner is None,
        action_type <= ACTION_ARM_STRIKE,
        target_id < TOTAL_STARS,
        result_count <= BASES_PER_PLAYER,
        replay_error(game@, is_player1, action_type, target_id) is None,
    ensures
        outcome_view(r) == match proof_error(verdict) {
            Some(e) => Err::<GameView, Error>(e),
            None => Ok::<GameView, Error>(
                applied(game@, is_player1, action_type, target_id, result_count),
            ),
        },
        r is Ok ==> r->Ok_0@.wf(),
{
    match verdict_error(verdict) {
        Some(e) => Err(e),
        None => {
            let mut next = game.duplicate();
            next.apply_action(is_player1, action_type, target_id, result_count);
            Ok(next)
        },
    }
}

/// Resolves an action against the record of its session, given the
/// verifier's verdict on its proof.
pub fn resolve_with_verdict(
    game: Option<&Game>,
    player: &Identity,
    action_type: u32,
    target_id: u32,
    result_count: u32,
    proof_len: usize,
    verdict: ProofVerdict,
) -> (r: Result<Game, Error>)
    requires
        game is Some ==> game->Some_0@.wf(),
    ensures
        outcome_view(r) == resolution(
            game_view(game),
            player@,
            action_type,
            target_id,
            result_count,
            proof_len as nat,
            verdict,
        ),
        r is Ok ==> r->Ok_0@.wf(),
{
    let is_player1 = match precheck(
        game,
        player,
        action_type,
        target_id,
        result_count,
        proof_len,
    ) {
        Err(e) => {
            return Err(e);
        },
        Ok(side) => side,
    };
    match game {
        Some(g) => settle(g, is_player1, action_type, target_id, result_count, verdict),
        None => Err(Error::GameNotFound),
    }
}

/// Resolves a submitted action: checks it against the record of its
/// session, builds the public inputs under the opponent's commitment, has
/// the proof verified against them, and applies the accepted action. The
/// verifier is run only on an action that has passed every earlier check.
pub fn resolve_action(
    game: Option<&Game>,
    vk: Option<&Vec<u8>>,
    player: &Identity,
    action_type: u32,
    target_id: u32,
    neighbors: &Vec<u32>,
    neighbor_count: u32,
    result_count: u32,
    proof_bytes: &Vec<u8>,
) -> (r: Result<Game, Error>)
    requires
        game is Some ==> game->Some_0@.wf(),
    ensures
        outcome_view(r) == submission(
            game_view(game),
            key_view(vk),
            player@,
            action_type,
            target_id,
            neighbors@,
            neighbor_count,
            result_count,
            proof_bytes@,
        ),
        r is Ok ==> r->Ok_0@.wf(),
{
    let is_player1 = match precheck(
        game,
        player,
        action_type,
        target_id,
        result_count,
        proof_bytes.len(),
    ) {
        Err(e) => {
            return Err(e);
        },
        Ok(side) => side,
    };
    match game {
        Some(g) => {
            let commitment = if is_player1 {
                &g.player2_commitment
            } else {
                &g.player1_commitment
            };
            let inputs = build_public_inputs(
                commitment,
                action_type,
                target_id,
                neighbors,
                neighbor_count,
                result_count,
            );
            let verdict = verify_proof(vk, proof_bytes, &inputs);
            settle(g, is_player1, action_type, target_id, result_count, verdict)
        },
        None => Err(Error::GameNotFound),
    }
}

} // verus!
