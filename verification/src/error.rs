use vstd::prelude::*;

verus! {

/// The named conditions under which an operation is refused.
#[derive(Copy, Clone, Debug, PartialEq, Eq, PartialOrd, Ord, Hash, Structural)]
pub enum Error {
    GameNotFound,
    NotPlayer,
    NotYourTurn,
    GameAlreadyEnded,
    InvalidProof,
    ProofVerificationFailed,
    StarAlreadyScanned,
    InvalidStarId,
    VkNotSet,
    VkParseError,
    CommitmentMismatch,
    GameNotReady,
    InvalidActionType,
    ArmAlreadyStruck,
    InvalidResultCount,
    SelfPlay,
}

impl Error {
    /// The numeric code under which the condition is reported on the wire.
    pub open spec fn spec_code(self) -> u32 {
        match self {
            Error::GameNotFound => 1,
            Error::NotPlayer => 2,
            Error::NotYourTurn => 3,
            Error::GameAlreadyEnded => 4,
            Error::InvalidProof => 5,
            Error::ProofVerificationFailed => 6,
            Error::StarAlreadyScanned => 7,
            Error::InvalidStarId => 8,
            Error::VkNotSet => 9,
            Error::VkParseError => 10,
            Error::CommitmentMismatch => 11,
            Error::GameNotReady => 12,
            Error::InvalidActionType => 13,
            Error::ArmAlreadyStruck => 14,
            Error::InvalidResultCount => 15,
            Error::SelfPlay => 16,
        }
    }

    /// Returns the numeric code of the condition.
    pub fn code(self) -> (c: u32)
        ensures
            c == self.spec_code(),
    {
        match self {
            Error::GameNotFound => 1,
            Error::NotPlayer => 2,
            Error::NotYourTurn => 3,
            Error::GameAlreadyEnded => 4,
            Error::InvalidProof => 5,
            Error::ProofVerificationFailed => 6,
            Error::StarAlreadyScanned => 7,
            Error::InvalidStarId => 8,
            Error::VkNotSet => 9,
            Error::VkParseError => 10,
            Error::CommitmentMismatch => 11,
            Error::GameNotReady => 12,
            Error::InvalidActionType => 13,
            Error::ArmAlreadyStruck => 14,
            Error::InvalidResultCount => 15,
            Error::SelfPlay => 16,
        }
    }
}

} // verus!
