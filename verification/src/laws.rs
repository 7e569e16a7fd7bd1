use crate::constants::{
    ACTION_ARM_STRIKE, ACTION_DEEP_RADAR, ACTION_SOLAR_SCAN, BASES_PER_PLAYER, TOTAL_STARS,
};
use crate::contract::{reply, ContractView};
use crate::error::Error;
use crate::game::{initial_game, GameView};
use crate::proof_check::{ProofVerdict, PROOF_BYTES};
use crate::resolution::{applied, arm_of, precheck_error, request_error, resolution, turn_error};
use vstd::prelude::*;

verus! {

/// A session between two distinct players starts in a state that meets the
/// invariant of a game record, with the turn at player 1, nothing found and
/// no winner.
pub proof fn lemma_creation_is_well_formed(
    player1: Seq<u8>,
    player2: Seq<u8>,
    player1_points: i128,
    player2_points: i128,
    player1_commitment: Seq<u8>,
    player2_commitment: Seq<u8>,
)
    requires
        player1 != player2,
        player1_commitment.len() == 32,
        player2_commitment.len() == 32,
    ensures
        ({
            let game = initial_game(
                player1,
                player2,
                player1_points,
                player2_points,
                player1_commitment,
                player2_commitment,
            );
            &&& game.wf()
            &&& game.current_turn == player1
            &&& game.player1 != game.player2
            &&& game.winner is None
        }),
{
}

/// Every accepted action leaves a record that meets the invariant of a game
/// record: the turn stays with one of the two players, no star is scanned
/// twice and no arm struck twice by one side, and a winner is a player.
/// The stakes, the commitments and the players never change.
pub proof fn lemma_resolution_keeps_invariant(
    game: GameView,
    player: Seq<u8>,
    action_type: u32,
    target_id: u32,
    result_count: u32,
    proof_len: nat,
    verdict: ProofVerdict,
)
    requires
        game.wf(),
        resolution(
            Some(game),
            player,
            action_type,
            target_id,
            result_count,
            proof_len,
            verdict,
        ) is Ok,
    ensures
        ({
            let next = resolution(
                Some(game),
                player,
                action_type,
                target_id,
                result_count,
                proof_len,
                    verdict,
            )->Ok_0;
            &&& next.wf()
            &&& (next.current_turn == next.player1 || next.current_turn == next.player2)
            &&& next.player1_scanned.no_duplicates()
            &&& next.player2_scanned.no_duplicates()
            &&& next.player1_arms_struck.no_duplicates()
            &&& next.player2_arms_struck.no_duplicates()
            &&& next.player1 == game.player1
            &&& next.player2 == game.player2
            &&& next.player1_points == game.player1_points
            &&& next.player2_points == game.player2_points
            &&& next.player1_commitment == game.player1_commitment
            &&& next.player2_commitment == game.player2_commitment
        }),
{
}

/// An accepted action never lowers a found-count, raises that of the acting
/// side alone, and leaves it at or below the number of bases wherever the
/// count before it and the claimed result together do not exceed that
/// number.
pub proof fn lemma_found_counts_grow(
    game: GameView,
    player: Seq<u8>,
    action_type: u32,
    target_id: u32,
    result_count: u32,
    proof_len: nat,
    verdict: ProofVerdict,
)
    requires
        game.wf(),
        resolution(
            Some(game),
            player,
            action_type,
            target_id,
            result_count,
            proof_len,
            verdict,
        ) is Ok,
    ensures
        ({
            let next = resolution(
                Some(game),
                player,
                action_type,
                target_id,
                result_count,
                proof_len,
                    verdict,
            )->Ok_0;
            let side = player == game.player1;
            &&& next.player1_found >= game.player1_found
            &&& next.player2_found >= game.player2_found
            &&& next.found(!side) == game.found(!side)
            &&& next.found(side) == if action_type == ACTION_DEEP_RADAR {
                game.found(side) as int
            } else {
                game.found(side) + result_count
            }
            &&& game.found(side) + result_count <= BASES_PER_PLAYER ==> next.player1_found
                <= BASES_PER_PLAYER && next.player2_found <= BASES_PER_PLAYER
        }),
{
}

/// A star that a side has scanned is never accepted for a scan by that side
/// again, and an arm that a side has struck is never accepted for a strike
/// by that side again, whatever the verifier says; where every earlier check
/// passes, the refusal names the repetition.
pub proof fn lemma_replay_is_refused(
    game: GameView,
    player: Seq<u8>,
    action_type: u32,
    target_id: u32,
    result_count: u32,
    proof_len: nat,
    verdict: ProofVerdict,
)
    requires
        game.wf(),
        game.is_participant(player),
        (action_type == ACTION_SOLAR_SCAN && game.scanned(player == game.player1).contains(
            target_id,
        )) || (action_type == ACTION_ARM_STRIKE && game.arms_struck(
            player == game.player1,
        ).contains(arm_of(target_id))),
    ensures
        resolution(
            Some(game),
            player,
            action_type,
            target_id,
            result_count,
            proof_len,
            verdict,
        ) is Err,
        request_error(action_type, target_id, result_count, proof_len) is None && turn_error(
            game,
            player,
        ) is None ==> resolution(
            Some(game),
            player,
            action_type,
            target_id,
            result_count,
            proof_len,
            verdict,
        ) == Err::<GameView, Error>(
            if action_type == ACTION_SOLAR_SCAN {
                Error::StarAlreadyScanned
            } else {
                Error::ArmAlreadyStruck
            },
        ),
{
}

/// An accepted scan puts its star last in the scan history of the acting
/// side, and an accepted strike puts its arm last in the strike history, so
/// that neither can be accepted again.
pub proof fn lemma_accepted_action_is_recorded(
    game: GameView,
    is_player1: bool,
    action_type: u32,
    target_id: u32,
    result_count: u32,
)
    requires
        game.wf(),
    ensures
        ({
            let next = applied(game, is_player1, action_type, target_id, result_count);
            &&& action_type == ACTION_SOLAR_SCAN ==> next.scanned(is_player1) == game.scanned(
                is_player1,
            ).push(target_id) && next.scanned(is_player1).contains(target_id)
            &&& action_type == ACTION_ARM_STRIKE ==> next.arms_struck(is_player1)
                == game.arms_struck(is_player1).push(arm_of(target_id)) && next.arms_struck(
                is_player1,
            ).contains(arm_of(target_id))
            &&& action_type != ACTION_SOLAR_SCAN ==> next.scanned(is_player1) == game.scanned(
                is_player1,
            )
            &&& action_type != ACTION_ARM_STRIKE ==> next.arms_struck(is_player1)
                == game.arms_struck(is_player1)
            &&& next.scanned(!is_player1) == game.scanned(!is_player1)
            &&& next.arms_struck(!is_player1) == game.arms_struck(!is_player1)
        }),
{
    let next = applied(game, is_player1, action_type, target_id, result_count);
    if action_type == ACTION_SOLAR_SCAN {
        let history = next.scanned(is_player1);
        assert(history[history.len() - 1] == target_id);
    }
    if action_type == ACTION_ARM_STRIKE {
        let history = next.arms_struck(is_player1);
        assert(history[history.len() - 1] == arm_of(target_id));
    }
}

/// Once a game has a winner, every action on it is refused, whatever the
/// verifier says; the refusal is `GameAlreadyEnded` wherever the request by
/// itself is in order.
pub proof fn lemma_ended_game_refuses(
    game: GameView,
    player: Seq<u8>,
    action_type: u32,
    target_id: u32,
    result_count: u32,
    proof_len: nat,
    verdict: ProofVerdict,
)
    requires
        game.winner is Some,
    ensures
        resolution(
            Some(game),
            player,
            action_type,
            target_id,
            result_count,
            proof_len,
            verdict,
        ) is Err,
        request_error(action_type, target_id, result_count, proof_len) is None ==> resolution(
            Some(game),
            player,
            action_type,
            target_id,
            result_count,
            proof_len,
            verdict,
        ) == Err::<GameView, Error>(Error::GameAlreadyEnded),
{
}

/// After an accepted scan or strike that does not end the game the turn is
/// with the other player; an accepted radar sweep changes nothing at all;
/// an action that ends the game names the acting player as the winner and
/// leaves the turn where it was.
pub proof fn lemma_turn_alternates(
    game: GameView,
    player: Seq<u8>,
    action_type: u32,
    target_id: u32,
    result_count: u32,
    proof_len: nat,
    verdict: ProofVerdict,
)
    requires
        game.wf(),
        resolution(
            Some(game),
            player,
            action_type,
            target_id,
            result_count,
            proof_len,
            verdict,
        ) is Ok,
    ensures
        ({
            let next = resolution(
                Some(game),
                player,
                action_type,
                target_id,
                result_count,
                proof_len,
                    verdict,
            )->Ok_0;
            &&& game.current_turn == player
            &&& action_type == ACTION_DEEP_RADAR ==> next == game
            &&& action_type != ACTION_DEEP_RADAR && next.winner is None ==> next.current_turn
                != player
                && next.current_turn == (if player == game.player1 {
                game.player2
            } else {
                game.player1
            })
            &&& next.winner is Some ==> next.winner == Some(player) && next.current_turn
                == game.current_turn && next.found(player == game.player1) >= BASES_PER_PLAYER
            &&& next.winner is Some <==> game.found(player == game.player1) + result_count
                >= BASES_PER_PLAYER && action_type != ACTION_DEEP_RADAR
        }),
{
}

/// An action that is refused before its proof is looked at is refused
/// whatever the verifier would say.
pub proof fn lemma_refusal_comes_before_proof(
    game: Option<GameView>,
    player: Seq<u8>,
    action_type: u32,
    target_id: u32,
    result_count: u32,
    proof_len: nat,
    verdict: ProofVerdict,
)
    requires
        precheck_error(game, player, action_type, target_id, result_count, proof_len) is Some,
    ensures
        resolution(
            game,
            player,
            action_type,
            target_id,
            result_count,
            proof_len,
            verdict,
        ) == Err::<GameView, Error>(
            precheck_error(game, player, action_type, target_id, result_count, proof_len)->Some_0,
        ),
        proof_len != PROOF_BYTES && action_type <= ACTION_ARM_STRIKE && target_id < TOTAL_STARS
            && result_count <= BASES_PER_PLAYER ==> resolution(
            game,
            player,
            action_type,
            target_id,
            result_count,
            proof_len,
            verdict,
        ) == Err::<GameView, Error>(Error::InvalidProof),
{
}

/// An action on a session whose game has a winner is refused and leaves
/// the whole contract as it was, whatever the verifier says.
pub proof fn lemma_ended_session_is_frozen(
    contract: ContractView,
    session_id: u32,
    player: Seq<u8>,
    action_type: u32,
    target_id: u32,
    result_count: u32,
    proof_len: nat,
    verdict: ProofVerdict,
)
    requires
        contract.game(session_id) is Some,
        contract.game(session_id)->Some_0.winner is Some,
    ensures
        ({
            let outcome = contract.resolve(
                session_id,
                player,
                action_type,
                target_id,
                result_count,
                proof_len,
                verdict,
            );
            &&& reply(outcome, result_count) is Err
            &&& contract.after(session_id, outcome) == contract
        }),
{
}

/// An action on one session, accepted or refused, leaves the record of
/// every other session and the configuration as they were; a refused one
/// leaves its own session as it was too.
pub proof fn lemma_sessions_are_independent(
    contract: ContractView,
    session_id: u32,
    other_id: u32,
    outcome: Result<GameView, Error>,
)
    requires
        other_id != session_id,
    ensures
        contract.after(session_id, outcome).game(other_id) == contract.game(other_id),
        contract.after(session_id, outcome).admin == contract.admin,
        contract.after(session_id, outcome).game_hub == contract.game_hub,
        contract.after(session_id, outcome).verification_key == contract.verification_key,
        outcome is Err ==> contract.after(session_id, outcome) == contract,
        outcome is Ok ==> contract.after(session_id, outcome).game(session_id) == Some(
            outcome->Ok_0,
        ),
{
}

/// A contract whose records all meet the invariant of a game record stays
/// so through every action, and in each of its sessions the turn is with one
/// of the two players.
pub proof fn lemma_contract_keeps_invariant(
    contract: ContractView,
    session_id: u32,
    player: Seq<u8>,
    action_type: u32,
    target_id: u32,
    result_count: u32,
    proof_len: nat,
    verdict: ProofVerdict,
)
    requires
        contract.wf(),
    ensures
        ({
            let next = contract.after(
                session_id,
                contract.resolve(
                    session_id,
                    player,
                    action_type,
                    target_id,
                    result_count,
                    proof_len,
                    verdict,
                ),
            );
            &&& next.wf()
            &&& forall|id: u32| #[trigger]
                next.games.contains_key(id) ==> next.games[id].is_participant(
                    next.games[id].current_turn,
                )
        }),
{
    let outcome = contract.resolve(
        session_id,
        player,
        action_type,
        target_id,
        result_count,
        proof_len,
        verdict,
    );
    if outcome is Ok {
        assert(contract.games.contains_key(session_id));
        lemma_resolution_keeps_invariant(
            contract.games[session_id],
            player,
            action_type,
            target_id,
            result_count,
            proof_len,
            verdict,
        );
    }
    let next = contract.after(session_id, outcome);
    assert forall|id: u32| #[trigger] next.games.contains_key(id) implies next.games[id].wf() by {
        if id != session_id {
            assert(contract.games.contains_key(id));
        }
    }
}

} // verus!
