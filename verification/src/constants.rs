use vstd::prelude::*;

verus! {

/// Total stars in the galaxy; stars are numbered from zero.
pub const TOTAL_STARS: u32 = 200;

/// Number of bases each player places.
pub const BASES_PER_PLAYER: u32 = 10;

/// Stars per spiral arm; an arm strike targets a whole arm.
pub const STARS_PER_ARM: u32 = 20;

/// Number of spiral arms in the galaxy.
pub const TOTAL_ARMS: u32 = 10;

/// Number of neighbor slots in the public inputs of a proof.
pub const MAX_NEIGHBORS: u32 = 20;

/// Precision scan of a single star.
pub const ACTION_SOLAR_SCAN: u32 = 0;

/// Radar sweep around a star; informational only.
pub const ACTION_DEEP_RADAR: u32 = 1;

/// Destruction of the spiral arm that holds the target star.
pub const ACTION_ARM_STRIKE: u32 = 2;

/// Length in bytes of the public inputs of a proof: the commitment, the
/// action, the target, the neighbor slots, the neighbor count and the result.
pub const PUBLIC_INPUT_BYTES: usize = 800;

} // verus!
