//! Plain-value model of the game world as the scheduler sees it.
//!
//! Entities are handed in as snapshots: an opaque stable identifier, a
//! position and the few per-entity readings the scheduling rules consume.
//! Snapshots are taken by the surrounding driver each tick or scan; the
//! scheduler never queries the world itself.
use vstd::prelude::*;
use crate::constants::{ROOM_X, ROOM_Y};

verus! {

/// A tile coordinate inside one room.
#[derive(Clone, Copy, PartialEq, Eq, Structural, Debug)]
pub struct Position {
    pub x: u32,
    pub y: u32,
}

/// Distance on the room grid: the number of king-moves between two tiles,
/// `max(|dx|, |dy|)`, which is the world's natural reachability metric.
pub open spec fn range_between(a: Position, b: Position) -> int {
    let dx = if a.x >= b.x { a.x - b.x } else { b.x - a.x };
    let dy = if a.y >= b.y { a.y - b.y } else { b.y - a.y };
    if dx >= dy {
        dx
    } else {
        dy
    }
}

impl Position {
    /// The coordinate lies inside the room.
    pub open spec fn wf(self) -> bool {
        self.x < ROOM_X && self.y < ROOM_Y
    }

    /// King-move distance from `self` to `other`.
    pub fn range_to(self, other: Position) -> (r: u32)
        ensures
            r == range_between(self, other),
    {
        let dx = if self.x >= other.x {
            self.x - other.x
        } else {
            other.x - self.x
        };
        let dy = if self.y >= other.y {
            self.y - other.y
        } else {
            other.y - self.y
        };
        if dx >= dy {
            dx
        } else {
            dy
        }
    }
}

/// A world entity a job points at: attack and heal targets, construction
/// sites, energy sources and the room controller.
#[derive(Clone, Copy, PartialEq, Eq, Structural, Debug)]
pub struct TargetRef {
    /// Stable world identifier, used by the driver to re-resolve the entity.
    pub id: u64,
    pub pos: Position,
}

/// A structure a job points at, with the scan-time readings the assignment
/// rules consume. The pool is rebuilt from fresh readings at every scan;
/// between scans these values are a tolerated, slightly stale snapshot.
#[derive(Clone, Copy, PartialEq, Eq, Structural, Debug)]
pub struct StructureRef {
    pub id: u64,
    pub pos: Position,
    /// Current health at scan time.
    pub hits: u32,
    /// Maximum health.
    pub hits_max: u32,
    /// How much more energy the structure's store can take at scan time.
    pub store_free_energy: u32,
}

/// A hostile unit present in the room.
#[derive(Clone, Copy, PartialEq, Eq, Structural, Debug)]
pub struct HostileInfo {
    pub id: u64,
    pub pos: Position,
}

/// A construction site in the room.
#[derive(Clone, Copy, PartialEq, Eq, Structural, Debug)]
pub struct SiteInfo {
    pub id: u64,
    pub pos: Position,
}

/// An energy source in the room.
#[derive(Clone, Copy, PartialEq, Eq, Structural, Debug)]
pub struct SourceInfo {
    pub id: u64,
    pub pos: Position,
    /// Energy remaining in the source.
    pub energy: u32,
}

/// A friendly unit in the room, as a heal candidate.
#[derive(Clone, Copy, PartialEq, Eq, Structural, Debug)]
pub struct FriendlyInfo {
    pub id: u64,
    pub pos: Position,
    pub hits: u32,
    pub hits_max: u32,
}

/// The structure classes the scheduler tells apart.
#[derive(Clone, Copy, PartialEq, Eq, Structural, Debug)]
pub enum StructureKind {
    Spawn,
    Extension,
    Tower,
    Other,
}

/// A structure in the room with every reading the scanners consume.
#[derive(Clone, Copy, PartialEq, Eq, Structural, Debug)]
pub struct StructureInfo {
    pub id: u64,
    pub pos: Position,
    pub kind: StructureKind,
    /// Whether the structure can take damage (and so be repaired).
    pub attackable: bool,
    pub hits: u32,
    pub hits_max: u32,
    /// Free energy capacity; zero for structures without a store.
    pub store_free_energy: u32,
}

/// The room controller, an upgrade target.
#[derive(Clone, Copy, PartialEq, Eq, Structural, Debug)]
pub struct ControllerInfo {
    pub id: u64,
    pub pos: Position,
}

/// The room's terrain: one wall bit per tile, row-major.
#[derive(Clone, Debug)]
pub struct Terrain {
    pub walls: Vec<bool>,
}

impl Terrain {
    /// One bit per tile of the room.
    pub open spec fn wf(self) -> bool {
        self.walls@.len() == ROOM_X * ROOM_Y
    }

    /// Whether the tile at `(x, y)` is impassable.
    pub open spec fn spec_is_wall(self, x: int, y: int) -> bool {
        self.walls@[y * ROOM_X + x]
    }

    pub fn is_wall(&self, x: u32, y: u32) -> (r: bool)
        requires
            self.wf(),
            x < ROOM_X,
            y < ROOM_Y,
        ensures
            r == self.spec_is_wall(x as int, y as int),
    {
        self.walls[(y * ROOM_X + x) as usize]
    }
}

/// Status of a world command, as the driver reports it back: the handful
/// of codes the execution contracts branch on, and `Other` carrying any
/// raw status not recognized here.
#[derive(Clone, Copy, PartialEq, Eq, Structural, Debug)]
pub enum WorldCode {
    Success,
    NotInRange,
    NotEnough,
    Tired,
    NoPath,
    Other(i32),
}

/// A job's target as re-resolved at execution time: entities may disappear
/// or change between ticks, so every resolution can come back `Gone`.
/// Each other variant carries the readings one job category's execution
/// contract consumes.
#[derive(Clone, Copy, PartialEq, Eq, Structural, Debug)]
pub enum TargetState {
    /// The target no longer exists or is out of sight.
    Gone,
    /// A construction site, with its build progress.
    Site { progress: u32, progress_total: u32 },
    /// An energy source that still exists.
    SourceFound,
    /// An energy store, with its current position and free energy capacity.
    Store { pos: Position, free_energy: u32 },
    /// A damageable structure, with its current health.
    Damageable { hits: u32, hits_max: u32 },
    /// The room controller still exists.
    ControllerFound,
    /// A unit (attack target) that still exists.
    UnitFound,
}

/// Count of non-wall tiles in the row `y`, columns `x0` (inclusive) up to
/// `x1` (exclusive).
pub open spec fn free_in_row(t: Terrain, y: int, x0: int, x1: int) -> int
    decreases x1 - x0,
{
    if x1 <= x0 {
        0
    } else {
        free_in_row(t, y, x0, x1 - 1) + (if t.spec_is_wall(x1 - 1, y) {
            0int
        } else {
            1int
        })
    }
}

/// Count of non-wall tiles in the box with columns `x0..x1` and rows
/// `y0..y1` (both exclusive at the top).
pub open spec fn free_in_box(t: Terrain, x0: int, x1: int, y0: int, y1: int) -> int
    decreases y1 - y0,
{
    if y1 <= y0 {
        0
    } else {
        free_in_box(t, x0, x1, y0, y1 - 1) + free_in_row(t, y1 - 1, x0, x1)
    }
}

pub proof fn lemma_free_in_row_bounds(t: Terrain, y: int, x0: int, x1: int)
    ensures
        0 <= free_in_row(t, y, x0, x1),
        free_in_row(t, y, x0, x1) <= (if x1 >= x0 {
            x1 - x0
        } else {
            0int
        }),
    decreases x1 - x0,
{
    if x1 > x0 {
        lemma_free_in_row_bounds(t, y, x0, x1 - 1);
    }
}

pub proof fn lemma_free_in_box_bounds(t: Terrain, x0: int, x1: int, y0: int, y1: int)
    ensures
        0 <= free_in_box(t, x0, x1, y0, y1),
        free_in_box(t, x0, x1, y0, y1) <= (if y1 >= y0 && x1 >= x0 {
            (y1 - y0) * (x1 - x0)
        } else {
            0int
        }),
    decreases y1 - y0,
{
    if y1 > y0 {
        lemma_free_in_box_bounds(t, x0, x1, y0, y1 - 1);
        lemma_free_in_row_bounds(t, y1 - 1, x0, x1);
        if x1 >= x0 {
            assert((y1 - y0) * (x1 - x0) == (y1 - 1 - y0) * (x1 - x0) + (x1 - x0))
                by (nonlinear_arith);
        }
    }
}

/// Count of non-wall tiles in the square of radius `range` around `pos`,
/// clipped to the room bounds: the shared capacity primitive for every
/// range-bounded job category.
pub open spec fn spec_free_spots(t: Terrain, pos: Position, range: u32) -> int {
    let x0 = if pos.x >= range {
        pos.x - range
    } else {
        0int
    };
    let y0 = if pos.y >= range {
        pos.y - range
    } else {
        0int
    };
    let x1 = if pos.x + range <= ROOM_X - 1 {
        pos.x + range
    } else {
        ROOM_X - 1
    };
    let y1 = if pos.y + range <= ROOM_Y - 1 {
        pos.y + range
    } else {
        ROOM_Y - 1
    };
    free_in_box(t, x0, x1 + 1, y0, y1 + 1)
}

/// Everything one scan reads from the room, as plain values.
#[derive(Clone, Debug)]
pub struct RoomSnapshot {
    pub hostiles: Vec<HostileInfo>,
    pub sites: Vec<SiteInfo>,
    pub sources: Vec<SourceInfo>,
    pub friendlies: Vec<FriendlyInfo>,
    pub structures: Vec<StructureInfo>,
    pub controller: Option<ControllerInfo>,
    pub terrain: Terrain,
    /// The room's total energy capacity, the baseline for the repair cutoff.
    pub energy_capacity: u32,
}

impl RoomSnapshot {
    /// Every position in the snapshot lies inside the room.
    pub open spec fn wf(self) -> bool {
        &&& self.terrain.wf()
        &&& forall|i: int|
            0 <= i < self.hostiles@.len() ==> (#[trigger] self.hostiles@[i]).pos.wf()
        &&& forall|i: int| 0 <= i < self.sites@.len() ==> (#[trigger] self.sites@[i]).pos.wf()
        &&& forall|i: int| 0 <= i < self.sources@.len() ==> (#[trigger] self.sources@[i]).pos.wf()
        &&& forall|i: int|
            0 <= i < self.friendlies@.len() ==> (#[trigger] self.friendlies@[i]).pos.wf()
        &&& forall|i: int|
            0 <= i < self.structures@.len() ==> (#[trigger] self.structures@[i]).pos.wf()
        &&& (self.controller matches Some(c) ==> c.pos.wf())
    }
}

} // verus!
