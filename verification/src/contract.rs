use crate::constants::ACTION_SOLAR_SCAN;
use crate::error::Error;
use crate::game::{initial_game, Game, GameView};
use crate::identity::{copy_bytes, Identity};
use crate::proof_check::ProofVerdict;
use crate::resolution::{resolution, resolve_action, resolve_with_verdict, submission};
use std::collections::HashMap;
use vstd::prelude::*;

verus! {

broadcast use vstd::std_specs::hash::group_hash_axioms;

/// The keys under which the state of the contract is stored.
#[derive(Clone, Debug, PartialEq, Eq)]
pub enum DataKey {
    /// The record of the session with the given identifier.
    Game(u32),
    /// The address of the game hub.
    GameHubAddress,
    /// The administrator.
    Admin,
    /// The verification key that proofs are checked under.
    VerificationKey,
}

/// The state of the contract: its configuration and one game record per
/// session.
pub struct TheResistanceContract {
    admin: Identity,
    game_hub: Identity,
    verification_key: Vec<u8>,
    games: HashMap<u32, Game>,
}

/// What the contract holds, as mathematical values.
pub struct ContractView {
    pub admin: Seq<u8>,
    pub game_hub: Seq<u8>,
    pub verification_key: Seq<u8>,
    pub games: Map<u32, GameView>,
}

impl ContractView {
    /// The invariant of the contract: every record meets the invariant of a
    /// game record.
    pub open spec fn wf(self) -> bool {
        forall|id: u32| #[trigger] self.games.contains_key(id) ==> self.games[id].wf()
    }

    /// The record of a session, if there is one.
    pub open spec fn game(self, session_id: u32) -> Option<GameView> {
        if self.games.contains_key(session_id) {
            Some(self.games[session_id])
        } else {
            None
        }
    }

    /// The contract with the record of a session set to `game`.
    pub open spec fn with_game(self, session_id: u32, game: GameView) -> ContractView {
        ContractView { games: self.games.insert(session_id, game), ..self }
    }

    /// The contract after an action on a session has been resolved: the
    /// record is replaced where the action was accepted, and nothing changes
    /// where it was refused.
    pub open spec fn after(self, session_id: u32, outcome: Result<GameView, Error>)
        -> ContractView {
        match outcome {
            Ok(g) => self.with_game(session_id, g),
            Err(_) => self,
        }
    }

    /// What the contract makes of an action whose proof gets the given
    /// verdict.
    pub open spec fn resolve(
        self,
        session_id: u32,
        player: Seq<u8>,
        action_type: u32,
        target_id: u32,
        result_count: u32,
        proof_len: nat,
        verdict: ProofVerdict,
    ) -> Result<GameView, Error> {
        resolution(
            self.game(session_id),
            player,
            action_type,
            target_id,
            result_count,
            proof_len,
            verdict,
        )
    }

    /// What the contract makes of a submitted action with its proof, which
    /// is verified under the configured key.
    pub open spec fn submit(
        self,
        session_id: u32,
        player: Seq<u8>,
        action_type: u32,
        target_id: u32,
        neighbors: Seq<u32>,
        neighbor_count: u32,
        result_count: u32,
        proof: Seq<u8>,
    ) -> Result<GameView, Error> {
        submission(
            self.game(session_id),
            Some(self.verification_key),
            player,
            action_type,
            target_id,
            neighbors,
            neighbor_count,
            result_count,
            proof,
        )
    }
}

/// The reply to the submitter of an action: the claimed result where the
/// action was accepted, the condition that refused it where it was not.
pub open spec fn reply(outcome: Result<GameView, Error>, result_count: u32) -> Result<u32, Error> {
    match outcome {
        Ok(_) => Ok(result_count),
        Err(e) => Err(e),
    }
}

/// The views of the records of a map of games.
pub open spec fn games_view(games: Map<u32, Game>) -> Map<u32, GameView> {
    Map::new(|id: u32| games.contains_key(id), |id: u32| games[id]@)
}

impl View for TheResistanceContract {
    type V = ContractView;

    closed spec fn view(&self) -> ContractView {
        ContractView {
            admin: self.admin@,
            game_hub: self.game_hub@,
            verification_key: self.verification_key@,
            games: games_view(self.games@),
        }
    }
}

impl TheResistanceContract {
    /// The contract with the given administrator, game hub and verification
    /// key, and without any session.
    pub fn new(admin: Identity, game_hub: Identity, vk_bytes: Vec<u8>) -> (contract: Self)
        ensures
            contract@ == (ContractView {
                admin: admin@,
                game_hub: game_hub@,
                verification_key: vk_bytes@,
                games: Map::empty(),
            }),
            contract@.wf(),
    {
        let contract = TheResistanceContract {
            admin,
            game_hub,
            verification_key: vk_bytes,
            games: HashMap::new(),
        };
        assert(games_view(contract.games@) =~= Map::empty());
        contract
    }

    /// Starts a session between two players; player 1 moves first. Two
    /// players with the same identity are refused and nothing is recorded.
    pub fn start_game(
        &mut self,
        session_id: u32,
        player1: Identity,
        player2: Identity,
        player1_points: i128,
        player2_points: i128,
        player1_commitment: [u8; 32],
        player2_commitment: [u8; 32],
    ) -> (r: Result<(), Error>)
        requires
            old(self)@.wf(),
        ensures
            final(self)@.wf(),
            player1@ == player2@ ==> r == Err::<(), Error>(Error::SelfPlay) && final(self)@ == old(
                self,
            )@,
            player1@ != player2@ ==> r == Ok::<(), Error>(()) && final(self)@ == old(
                self,
            )@.with_game(
                session_id,
                initial_game(
                    player1@,
                    player2@,
                    player1_points,
                    player2_points,
                    player1_commitment@,
                    player2_commitment@,
                ),
            ),
    {
        match Game::new(
            player1,
            player2,
            player1_points,
            player2_points,
            player1_commitment,
            player2_commitment,
        ) {
            Err(e) => Err(e),
            Ok(game) => {
                self.put(session_id, game);
                Ok(())
            },
        }
    }

    /// Stores the record of a session.
    fn put(&mut self, session_id: u32, game: Game)
        requires
            old(self)@.wf(),
            game@.wf(),
        ensures
            final(self)@ == old(self)@.with_game(session_id, game@),
            final(self)@.wf(),
    {
        self.games.insert(session_id, game);
        assert(games_view(self.games@) =~= games_view(old(self).games@).insert(
            session_id,
            game@,
        ));
    }

    /// The record of a session, if there is one.
    fn find(&self, session_id: u32) -> (game: Option<&Game>)
        ensures
            match game {
                Some(g) => self@.game(session_id) == Some(g@),
                None => self@.game(session_id) is None,
            },
    {
        self.games.get(&session_id)
    }

    /// Resolves a submitted action on a session. The proof is verified
    /// against the public inputs of the action under the commitment of the
    /// opponent; an action that is refused leaves the contract unchanged.
    pub fn execute_action(
        &mut self,
        session_id: u32,
        player: &Identity,
        action_type: u32,
        target_id: u32,
        neighbors: &Vec<u32>,
        neighbor_count: u32,
        result_count: u32,
        proof_bytes: &Vec<u8>,
    ) -> (r: Result<u32, Error>)
        requires
            old(self)@.wf(),
        ensures
            final(self)@.wf(),
            ({
                let outcome = old(self)@.submit(
                    session_id,
                    player@,
                    action_type,
                    target_id,
                    neighbors@,
                    neighbor_count,
                    result_count,
                    proof_bytes@,
                );
                &&& r == reply(outcome, result_count)
                &&& final(self)@ == old(self)@.after(session_id, outcome)
            }),
    {
        let outcome = resolve_action(
            self.find(session_id),
            Some(&self.verification_key),
            player,
            action_type,
            target_id,
            neighbors,
            neighbor_count,
            result_count,
            proof_bytes,
        );
        match outcome {
            Ok(next) => {
                self.put(session_id, next);
                Ok(result_count)
            },
            Err(e) => Err(e),
        }
    }

    /// Resolves an action on a session whose proof has been given the
    /// verdict `verdict`; an action that is refused leaves the contract
    /// unchanged.
    pub fn execute_with_verdict(
        &mut self,
        session_id: u32,
        player: &Identity,
        action_type: u32,
        target_id: u32,
        result_count: u32,
        proof_len: usize,
        verdict: ProofVerdict,
    ) -> (r: Result<u32, Error>)
        requires
            old(self)@.wf(),
        ensures
            final(self)@.wf(),
            ({
                let outcome = old(self)@.resolve(
                    session_id,
                    player@,
                    action_type,
                    target_id,
                    result_count,
                    proof_len as nat,
                    verdict,
                );
                &&& r == reply(outcome, result_count)
                &&& final(self)@ == old(self)@.after(session_id, outcome)
            }),
    {
        let outcome = resolve_with_verdict(
            self.find(session_id),
            player,
            action_type,
            target_id,
            result_count,
            proof_len,
            verdict,
        );
        match outcome {
            Ok(next) => {
                self.put(session_id, next);
                Ok(result_count)
            },
            Err(e) => Err(e),
        }
    }

    /// Resolves a solar scan of `target_star` whose claimed result is
    /// `is_base`: the scan action without neighbors.
    pub fn scan(
        &mut self,
        session_id: u32,
        player: &Identity,
        target_star: u32,
        proof_bytes: &Vec<u8>,
        is_base: bool,
    ) -> (r: Result<bool, Error>)
        requires
            old(self)@.wf(),
        ensures
            final(self)@.wf(),
            ({
                let result_count: u32 = if is_base {
                    1
                } else {
                    0
                };
                let outcome = old(self)@.submit(
                    session_id,
                    player@,
                    ACTION_SOLAR_SCAN,
                    target_star,
                    Seq::empty(),
                    0,
                    result_count,
                    proof_bytes@,
                );
                &&& r == match outcome {
                    Ok(_) => Ok::<bool, Error>(is_base),
                    Err(e) => Err::<bool, Error>(e),
                }
                &&& final(self)@ == old(self)@.after(session_id, outcome)
            }),
    {
        let result_count: u32 = if is_base {
            1
        } else {
            0
        };
        let neighbors: Vec<u32> = Vec::new();
        match self.execute_action(
            session_id,
            player,
            ACTION_SOLAR_SCAN,
            target_star,
            &neighbors,
            0,
            result_count,
            proof_bytes,
        ) {
            Ok(_) => Ok(is_base),
            Err(e) => Err(e),
        }
    }

    /// A copy of the record of a session, or `GameNotFound`.
    pub fn get_game(&self, session_id: u32) -> (r: Result<Game, Error>)
        ensures
            match self@.game(session_id) {
                Some(g) => r is Ok && r->Ok_0@ == g,
                None => r == Err::<Game, Error>(Error::GameNotFound),
            },
    {
        match self.find(session_id) {
            Some(g) => Ok(g.duplicate()),
            None => Err(Error::GameNotFound),
        }
    }

    /// The player whose turn it is in a session, or `GameNotFound`.
    pub fn get_current_turn(&self, session_id: u32) -> (r: Result<Identity, Error>)
        ensures
            match self@.game(session_id) {
                Some(g) => r is Ok && r->Ok_0@ == g.current_turn,
                None => r == Err::<Identity, Error>(Error::GameNotFound),
            },
    {
        match self.find(session_id) {
            Some(g) => Ok(g.current_turn.duplicate()),
            None => Err(Error::GameNotFound),
        }
    }

    /// The scan history of a player in a session: `GameNotFound` without
    /// the session, `NotPlayer` for anyone but its two players.
    pub fn get_scans(&self, session_id: u32, player: &Identity) -> (r: Result<Vec<u32>, Error>)
        ensures
            match self@.game(session_id) {
                None => r == Err::<Vec<u32>, Error>(Error::GameNotFound),
                Some(g) => if g.is_participant(player@) {
                    r is Ok && r->Ok_0@ == g.scanned(player@ == g.player1)
                } else {
                    r == Err::<Vec<u32>, Error>(Error::NotPlayer)
                },
            },
    {
        match self.find(session_id) {
            Some(g) => g.scans_of(player),
            None => Err(Error::GameNotFound),
        }
    }

    /// The strike history of a player in a session: `GameNotFound` without
    /// the session, `NotPlayer` for anyone but its two players.
    pub fn get_arms_struck(&self, session_id: u32, player: &Identity) -> (r: Result<
        Vec<u32>,
        Error,
    >)
        ensures
            match self@.game(session_id) {
                None => r == Err::<Vec<u32>, Error>(Error::GameNotFound),
                Some(g) => if g.is_participant(player@) {
                    r is Ok && r->Ok_0@ == g.arms_struck(player@ == g.player1)
                } else {
                    r == Err::<Vec<u32>, Error>(Error::NotPlayer)
                },
            },
    {
        match self.find(session_id) {
            Some(g) => g.strikes_of(player),
            None => Err(Error::GameNotFound),
        }
    }

    /// The found-count of a player in a session: `GameNotFound` without the
    /// session, `NotPlayer` for anyone but its two players.
    pub fn get_found_count(&self, session_id: u32, player: &Identity) -> (r: Result<u32, Error>)
        ensures
            r == match self@.game(session_id) {
                None => Err::<u32, Error>(Error::GameNotFound),
                Some(g) => if g.is_participant(player@) {
                    Ok::<u32, Error>(g.found(player@ == g.player1))
                } else {
                    Err::<u32, Error>(Error::NotPlayer)
                },
            },
    {
        match self.find(session_id) {
            Some(g) => g.found_count_of(player),
            None => Err(Error::GameNotFound),
        }
    }

    /// The administrator.
    pub fn get_admin(&self) -> (admin: Identity)
        ensures
            admin@ == self@.admin,
    {
        self.admin.duplicate()
    }

    /// Replaces the administrator.
    pub fn set_admin(&mut self, new_admin: Identity)
        ensures
            final(self)@ == (ContractView { admin: new_admin@, ..old(self)@ }),
    {
        self.admin = new_admin;
    }

    /// The address of the game hub.
    pub fn get_hub(&self) -> (hub: Identity)
        ensures
            hub@ == self@.game_hub,
    {
        self.game_hub.duplicate()
    }

    /// Replaces the address of the game hub.
    pub fn set_hub(&mut self, new_hub: Identity)
        ensures
            final(self)@ == (ContractView { game_hub: new_hub@, ..old(self)@ }),
    {
        self.game_hub = new_hub;
    }

    /// The verification key that proofs are checked under.
    pub fn get_vk(&self) -> (vk: Vec<u8>)
        ensures
            vk@ == self@.verification_key,
    {
        copy_bytes(&self.verification_key)
    }

    /// Replaces the verification key.
    pub fn set_vk(&mut self, vk_bytes: Vec<u8>)
        ensures
            final(self)@ == (ContractView { verification_key: vk_bytes@, ..old(self)@ }),
    {
        self.verification_key = vk_bytes;
    }
}

} // verus!
