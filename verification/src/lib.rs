//! Turn-based action resolution for a two-player hidden-placement game.
//!
//! Each player commits to a secret placement of bases among the stars of a
//! galaxy. The players then take turns probing the opponent's placement; every
//! claimed result is backed by a zero-knowledge proof that is checked against a
//! canonical public-input byte string derived from the action.
//!
//! - [`encoding`] builds the public inputs of a proof.
//! - [`proof_check`] hands a proof to the UltraHonk verifier.
//! - [`game`] holds the record of a session and its invariant.
//! - [`resolution`] decides what becomes of a submitted action.
//! - [`contract`] keeps the configuration and the records of all sessions.
//! - [`laws`] states what holds of every game.

pub mod constants;
pub mod contract;
pub mod encoding;
pub mod error;
pub mod game;
pub mod identity;
pub mod laws;
pub mod proof_check;
pub mod resolution;

pub use constants::{
    ACTION_ARM_STRIKE, ACTION_DEEP_RADAR, ACTION_SOLAR_SCAN, BASES_PER_PLAYER, MAX_NEIGHBORS,
    STARS_PER_ARM, TOTAL_ARMS, TOTAL_STARS,
};
pub use contract::{DataKey, TheResistanceContract};
pub use error::Error;
pub use game::Game;
pub use identity::Identity;
pub use proof_check::{ProofVerdict, PROOF_BYTES};
