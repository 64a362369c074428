//! Fixed tuning constants of the scheduler: per-category priorities (lower
//! value = scheduled first), interaction ranges, room geometry and the
//! economic cutoff for repair work.
use vstd::prelude::*;

verus! {

/// Most units the room keeps alive at once; the spawn driver stops at this.
pub const MAX_CREEPS: usize = 10;

/// A structure is only worth repairing while its health is below the
/// relevant energy capacity times this factor.
pub const MAX_REPAIR_MULTIPLIER: u32 = 4;

pub const PRIORITY_ATTACK: u32 = 0;
pub const PRIORITY_HEALING: u32 = 1;
pub const PRIORITY_REPAIRING: u32 = 2;
pub const PRIORITY_MAINTAINING: u32 = 3;
pub const PRIORITY_BUILDING: u32 = 4;
pub const PRIORITY_UPGRADING: u32 = 5;
pub const PRIORITY_HARVESTING: u32 = 6;

pub const RANGE_BUILD: u32 = 3;
pub const RANGE_HARVEST: u32 = 1;
pub const RANGE_TRANSFER: u32 = 1;
pub const RANGE_UPGRADE_CONTROLLER: u32 = 3;

/// Room side lengths: coordinates run over 0..ROOM_X-1 and 0..ROOM_Y-1.
pub const ROOM_X: u32 = 50;
pub const ROOM_Y: u32 = 50;

/// How many attackers can usefully focus one hostile at once.
pub const ATTACK_PLACES: u32 = 5;

/// A worker this close to expiring is not sent to harvest: it would die
/// before delivering.
pub const LOW_LIFETIME_THRESHOLD: u32 = 50;

} // verus!
