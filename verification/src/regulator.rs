//! The per-room orchestrator: owns the unit registries and the shared
//! offer pool, rebuilds the pool by scanning the room, and runs each
//! unit's selection against the pool in turn.
use vstd::prelude::*;
use crate::constants::{
    ATTACK_PLACES, MAX_REPAIR_MULTIPLIER, RANGE_BUILD, RANGE_HARVEST, RANGE_TRANSFER,
    RANGE_UPGRADE_CONTROLLER, ROOM_X,
};
use crate::job::Job;
use crate::job_offer::JobOffer;
use crate::tower::{Tower, TowerInfo, tower_select_post};
use crate::util::NumHelper;
use crate::work::{Creep, CreepInfo, worker_select_post};
use crate::world::{
    ControllerInfo, FriendlyInfo, HostileInfo, Position, RoomSnapshot, SiteInfo, SourceInfo,
    StructureInfo, StructureKind, StructureRef, TargetRef, Terrain, lemma_free_in_box_bounds,
    lemma_free_in_row_bounds, free_in_box, free_in_row, spec_free_spots,
};

verus! {

/// A unit's execution error, tagged with the unit class it came from.
#[derive(Clone, Copy, PartialEq, Eq, Structural, Debug)]
pub enum Error {
    Creep(crate::work::Error),
    Tower(crate::tower::Error),
}

/// One offer per hostile unit, with a fixed number of attacker places.
pub open spec fn attack_offers(hostiles: Seq<HostileInfo>) -> Seq<JobOffer>
    decreases hostiles.len(),
{
    if hostiles.len() == 0 {
        Seq::empty()
    } else {
        let h = hostiles.last();
        attack_offers(hostiles.drop_last()) + seq![
            JobOffer {
                available_places: ATTACK_PLACES,
                job: Job::Attack(TargetRef { id: h.id, pos: h.pos }),
            },
        ]
    }
}

/// One offer per construction site, with one place per free tile in build
/// range.
pub open spec fn build_offers(sites: Seq<SiteInfo>, t: Terrain) -> Seq<JobOffer>
    decreases sites.len(),
{
    if sites.len() == 0 {
        Seq::empty()
    } else {
        let s = sites.last();
        build_offers(sites.drop_last(), t) + seq![
            JobOffer {
                available_places: spec_free_spots(t, s.pos, RANGE_BUILD) as u32,
                job: Job::Build(TargetRef { id: s.id, pos: s.pos }),
            },
        ]
    }
}

/// One offer per energy source that still has energy, with one place per
/// free tile in harvest range.
pub open spec fn harvest_offers(sources: Seq<SourceInfo>, t: Terrain) -> Seq<JobOffer>
    decreases sources.len(),
{
    if sources.len() == 0 {
        Seq::empty()
    } else {
        let s = sources.last();
        harvest_offers(sources.drop_last(), t) + (if s.energy != 0 {
            seq![
                JobOffer {
                    available_places: spec_free_spots(t, s.pos, RANGE_HARVEST) as u32,
                    job: Job::Harvest(TargetRef { id: s.id, pos: s.pos }),
                },
            ]
        } else {
            Seq::empty()
        })
    }
}

/// One single-place offer per friendly unit below full health.
pub open spec fn heal_offers(friendlies: Seq<FriendlyInfo>) -> Seq<JobOffer>
    decreases friendlies.len(),
{
    if friendlies.len() == 0 {
        Seq::empty()
    } else {
        let f = friendlies.last();
        heal_offers(friendlies.drop_last()) + (if f.hits == f.hits_max {
            Seq::empty()
        } else {
            seq![
                JobOffer {
                    available_places: 1u32,
                    job: Job::Heal(TargetRef { id: f.id, pos: f.pos }),
                },
            ]
        })
    }
}

/// Whether a structure is an energy store the maintain category serves.
pub open spec fn maintain_kind(k: StructureKind) -> bool {
    k is Extension || k is Spawn || k is Tower
}

/// One offer per energy-storing structure with free energy capacity, with
/// one place per free tile in transfer range.
pub open spec fn maintain_offers(structures: Seq<StructureInfo>, t: Terrain) -> Seq<JobOffer>
    decreases structures.len(),
{
    if structures.len() == 0 {
        Seq::empty()
    } else {
        let s = structures.last();
        maintain_offers(structures.drop_last(), t) + (if maintain_kind(s.kind)
            && s.store_free_energy != 0 {
            seq![
                JobOffer {
                    available_places: spec_free_spots(t, s.pos, RANGE_TRANSFER) as u32,
                    job: Job::Maintain(
                        StructureRef {
                            id: s.id,
                            pos: s.pos,
                            hits: s.hits,
                            hits_max: s.hits_max,
                            store_free_energy: s.store_free_energy,
                        },
                    ),
                },
            ]
        } else {
            Seq::empty()
        })
    }
}

/// Whether a structure is worth a repair offer: damageable, not already
/// destroyed or whole, and below the room's energy capacity times the
/// repair multiplier — repair is only offered while economically
/// worthwhile, and a structure at exactly the cutoff gets no offer.
pub open spec fn repair_worthwhile(s: StructureInfo, energy_capacity: u32) -> bool {
    &&& s.attackable
    &&& s.hits != 0
    &&& s.hits < energy_capacity * MAX_REPAIR_MULTIPLIER
    &&& s.hits < s.hits_max
}

/// One single-place offer per structure worth repairing.
pub open spec fn repair_offers(structures: Seq<StructureInfo>, energy_capacity: u32) -> Seq<
    JobOffer,
>
    decreases structures.len(),
{
    if structures.len() == 0 {
        Seq::empty()
    } else {
        let s = structures.last();
        repair_offers(structures.drop_last(), energy_capacity) + (if repair_worthwhile(
            s,
            energy_capacity,
        ) {
            seq![
                JobOffer {
                    available_places: 1u32,
                    job: Job::Repair(
                        StructureRef {
                            id: s.id,
                            pos: s.pos,
                            hits: s.hits,
                            hits_max: s.hits_max,
                            store_free_energy: s.store_free_energy,
                        },
                    ),
                },
            ]
        } else {
            Seq::empty()
        })
    }
}

/// At most one offer, for the room's controller if present, with one
/// place per free tile in upgrade range.
pub open spec fn upgrade_offers(controller: Option<ControllerInfo>, t: Terrain) -> Seq<JobOffer> {
    match controller {
        Some(c) => seq![
            JobOffer {
                available_places: spec_free_spots(t, c.pos, RANGE_UPGRADE_CONTROLLER) as u32,
                job: Job::Upgrade(TargetRef { id: c.id, pos: c.pos }),
            },
        ],
        None => Seq::empty(),
    }
}

/// The whole pool one scan builds, in its fixed category order.
pub open spec fn scan_pool(w: RoomSnapshot) -> Seq<JobOffer> {
    attack_offers(w.hostiles@) + build_offers(w.sites@, w.terrain) + harvest_offers(
        w.sources@,
        w.terrain,
    ) + heal_offers(w.friendlies@) + maintain_offers(w.structures@, w.terrain) + repair_offers(
        w.structures@,
        w.energy_capacity,
    ) + upgrade_offers(w.controller, w.terrain)
}

/// Every attack offer is an attack job.
pub proof fn lemma_attack_offers_kinds(hostiles: Seq<HostileInfo>)
    ensures
        forall|k: int|
            0 <= k < attack_offers(hostiles).len() ==> (#[trigger] attack_offers(
                hostiles,
            )[k]).job is Attack,
    decreases hostiles.len(),
{
    if hostiles.len() > 0 {
        lemma_attack_offers_kinds(hostiles.drop_last());
    }
}

/// Every build offer is a build job.
pub proof fn lemma_build_offers_kinds(sites: Seq<SiteInfo>, t: Terrain)
    ensures
        forall|k: int|
            0 <= k < build_offers(sites, t).len() ==> (#[trigger] build_offers(
                sites,
                t,
            )[k]).job is Build,
    decreases sites.len(),
{
    if sites.len() > 0 {
        lemma_build_offers_kinds(sites.drop_last(), t);
    }
}

/// Every harvest offer is a harvest job on a source that had energy.
pub proof fn lemma_harvest_offers_kinds(sources: Seq<SourceInfo>, t: Terrain)
    ensures
        forall|k: int|
            0 <= k < harvest_offers(sources, t).len() ==> (#[trigger] harvest_offers(
                sources,
                t,
            )[k]).job is Harvest,
    decreases sources.len(),
{
    if sources.len() > 0 {
        lemma_harvest_offers_kinds(sources.drop_last(), t);
    }
}

/// Every heal offer is a single-place heal job.
pub proof fn lemma_heal_offers_kinds(friendlies: Seq<FriendlyInfo>)
    ensures
        forall|k: int|
            0 <= k < heal_offers(friendlies).len() ==> (#[trigger] heal_offers(
                friendlies,
            )[k]).job is Heal,
    decreases friendlies.len(),
{
    if friendlies.len() > 0 {
        lemma_heal_offers_kinds(friendlies.drop_last());
    }
}

/// Every maintain offer is a maintain job on a store with free capacity.
pub proof fn lemma_maintain_offers_kinds(structures: Seq<StructureInfo>, t: Terrain)
    ensures
        forall|k: int|
            0 <= k < maintain_offers(structures, t).len() ==> {
                let o = #[trigger] maintain_offers(structures, t)[k];
                o.job is Maintain && (o.job matches Job::Maintain(r) ==> r.store_free_energy != 0)
            },
    decreases structures.len(),
{
    if structures.len() > 0 {
        lemma_maintain_offers_kinds(structures.drop_last(), t);
    }
}

/// Repair offers are only generated for structures whose health is
/// nonzero, below the cutoff `energy_capacity` times the repair
/// multiplier, and below their maximum health; each has exactly one
/// place.
pub proof fn lemma_repair_offers_sound(structures: Seq<StructureInfo>, energy_capacity: u32)
    ensures
        forall|k: int|
            0 <= k < repair_offers(structures, energy_capacity).len() ==> {
                let o = #[trigger] repair_offers(structures, energy_capacity)[k];
                &&& o.job is Repair
                &&& o.available_places == 1
                &&& (o.job matches Job::Repair(r) ==> 0 < r.hits && r.hits < energy_capacity
                    * MAX_REPAIR_MULTIPLIER && r.hits < r.hits_max)
            },
    decreases structures.len(),
{
    if structures.len() > 0 {
        lemma_repair_offers_sound(structures.drop_last(), energy_capacity);
    }
}

/// Every upgrade offer is an upgrade job.
pub proof fn lemma_upgrade_offers_kinds(controller: Option<ControllerInfo>, t: Terrain)
    ensures
        forall|k: int|
            0 <= k < upgrade_offers(controller, t).len() ==> (#[trigger] upgrade_offers(
                controller,
                t,
            )[k]).job is Upgrade,
{
}

/// Every repair offer in a freshly scanned pool targets a structure with
/// health strictly between zero and the room's energy capacity times the
/// repair multiplier, and below its maximum.
pub proof fn lemma_scan_pool_repair_sound(w: RoomSnapshot)
    ensures
        forall|k: int|
            0 <= k < scan_pool(w).len() ==> ((#[trigger] scan_pool(w)[k]).job matches Job::Repair(r)
                ==> 0 < r.hits && r.hits < w.energy_capacity * MAX_REPAIR_MULTIPLIER && r.hits
                < r.hits_max),
{
    lemma_attack_offers_kinds(w.hostiles@);
    lemma_build_offers_kinds(w.sites@, w.terrain);
    lemma_harvest_offers_kinds(w.sources@, w.terrain);
    lemma_heal_offers_kinds(w.friendlies@);
    lemma_maintain_offers_kinds(w.structures@, w.terrain);
    lemma_repair_offers_sound(w.structures@, w.energy_capacity);
    lemma_upgrade_offers_kinds(w.controller, w.terrain);
}

/// Whether `name` is among the given names.
pub open spec fn name_in(names: Seq<String>, name: Seq<char>) -> bool {
    exists|j: int| 0 <= j < names.len() && names[j]@ == name
}

/// Whether some registered worker carries `name`.
pub open spec fn creep_named(creeps: Seq<Creep>, name: Seq<char>) -> bool {
    exists|k: int| 0 <= k < creeps.len() && creeps[k].name@ == name
}

/// Whether some registered tower carries `id`.
pub open spec fn tower_with_id(towers: Seq<Tower>, id: Seq<char>) -> bool {
    exists|k: int| 0 <= k < towers.len() && towers[k].id@ == id
}

/// The workers that survive a prune against the live names, keeping
/// their order.
pub open spec fn retained_creeps(creeps: Seq<Creep>, live: Seq<String>) -> Seq<Creep>
    decreases creeps.len(),
{
    if creeps.len() == 0 {
        Seq::empty()
    } else {
        retained_creeps(creeps.drop_last(), live) + (if name_in(live, creeps.last().name@) {
            seq![creeps.last()]
        } else {
            Seq::empty()
        })
    }
}

/// The towers that survive a prune against the live identifiers,
/// keeping their order.
pub open spec fn retained_towers(towers: Seq<Tower>, live: Seq<String>) -> Seq<Tower>
    decreases towers.len(),
{
    if towers.len() == 0 {
        Seq::empty()
    } else {
        retained_towers(towers.drop_last(), live) + (if name_in(live, towers.last().id@) {
            seq![towers.last()]
        } else {
            Seq::empty()
        })
    }
}

/// Whether `name` occurs in `names`.
fn name_in_vec(names: &Vec<String>, name: &String) -> (r: bool)
    ensures
        r == name_in(names@, name@),
{
    let mut j: usize = 0;
    while j < names.len()
        invariant
            j <= names@.len(),
            forall|t: int| 0 <= t < j ==> names@[t]@ != name@,
        decreases names@.len() - j,
    {
        if names[j] == *name {
            return true;
        }
        j = j + 1;
    }
    false
}

/// The per-room orchestrator: the registered worker and tower units with
/// their persistent jobs, the current offer pool, and the room's name.
/// The pool is rebuilt from scratch by `scan` and consumed in place as
/// units select jobs; scans run periodically rather than every tick, so
/// units work against a stale-but-tolerated snapshot in between.
#[derive(Debug)]
pub struct Regulator {
    pub creeps: Vec<Creep>,
    pub towers: Vec<Tower>,
    pub jobs: Vec<JobOffer>,
    pub room: String,
}

impl Regulator {
    /// Count of non-wall tiles in the square of radius `range` around
    /// `pos`, clipped to the room bounds: the shared capacity primitive.
    fn get_free_spots(terrain: &Terrain, pos: Position, range: u32) -> (r: u32)
        requires
            terrain.wf(),
            pos.wf(),
            range < ROOM_X,
        ensures
            r == spec_free_spots(*terrain, pos, range),
    {
        let x0: u32 = if pos.x >= range {
            pos.x - range
        } else {
            0
        };
        let y0: u32 = if pos.y >= range {
            pos.y - range
        } else {
            0
        };
        let x1: u32 = (pos.x + range).limit_max(ROOM_X - 1);
        let y1: u32 = (pos.y + range).limit_max(ROOM_X - 1);
        let mut count: u32 = 0;
        let mut yy: u32 = y0;
        while yy <= y1
            invariant
                terrain.wf(),
                x0 <= x1 < ROOM_X,
                y0 <= yy <= y1 + 1,
                y1 < ROOM_X,
                count == free_in_box(*terrain, x0 as int, x1 as int + 1, y0 as int, yy as int),
            decreases y1 + 1 - yy,
        {
            let mut rr: u32 = 0;
            let mut xx: u32 = x0;
            while xx <= x1
                invariant
                    terrain.wf(),
                    x0 <= xx <= x1 + 1,
                    x1 < ROOM_X,
                    yy < ROOM_X,
                    rr == free_in_row(*terrain, yy as int, x0 as int, xx as int),
                decreases x1 + 1 - xx,
            {
                if !terrain.is_wall(xx, yy) {
                    proof {
                        lemma_free_in_row_bounds(*terrain, yy as int, x0 as int, xx as int);
                    }
                    rr = rr + 1;
                }
                xx = xx + 1;
            }
            proof {
                lemma_free_in_box_bounds(*terrain, x0 as int, x1 as int + 1, y0 as int, yy as int);
                lemma_free_in_row_bounds(*terrain, yy as int, x0 as int, x1 as int + 1);
                assert((yy - y0) * (x1 + 1 - x0) <= 2500) by (nonlinear_arith)
                    requires
                        0 <= yy - y0 <= 50,
                        0 <= x1 + 1 - x0 <= 50,
                ;
            }
            count = count + rr;
            yy = yy + 1;
        }
        count
    }

    fn scan_attack_jobs(&mut self, world: &RoomSnapshot)
        ensures
            final(self).jobs@ == old(self).jobs@ + attack_offers(world.hostiles@),
            final(self).creeps == old(self).creeps,
            final(self).towers == old(self).towers,
            final(self).room == old(self).room,
    {
        let mut k: usize = 0;
        while k < world.hostiles.len()
            invariant
                k <= world.hostiles@.len(),
                self.jobs@ == old(self).jobs@ + attack_offers(world.hostiles@.take(k as int)),
                self.creeps == old(self).creeps,
                self.towers == old(self).towers,
                self.room == old(self).room,
            decreases world.hostiles@.len() - k,
        {
            let h = world.hostiles[k];
            self.jobs.push(JobOffer::new(Job::Attack(TargetRef { id: h.id, pos: h.pos }),
                ATTACK_PLACES));
            proof {
                let s = world.hostiles@;
                assert(s.take(k as int + 1).drop_last() =~= s.take(k as int));
                assert(s.take(k as int + 1).last() == s[k as int]);
                assert(self.jobs@ =~= old(self).jobs@ + attack_offers(s.take(k as int + 1)));
            }
            k = k + 1;
        }
        proof {
            assert(world.hostiles@.take(world.hostiles@.len() as int) =~= world.hostiles@);
        }
    }

    fn scan_build_jobs(&mut self, world: &RoomSnapshot)
        requires
            world.wf(),
        ensures
            final(self).jobs@ == old(self).jobs@ + build_offers(world.sites@, world.terrain),
            final(self).creeps == old(self).creeps,
            final(self).towers == old(self).towers,
            final(self).room == old(self).room,
    {
        let mut k: usize = 0;
        while k < world.sites.len()
            invariant
                world.wf(),
                k <= world.sites@.len(),
                self.jobs@ == old(self).jobs@ + build_offers(
                    world.sites@.take(k as int),
                    world.terrain,
                ),
                self.creeps == old(self).creeps,
                self.towers == old(self).towers,
                self.room == old(self).room,
            decreases world.sites@.len() - k,
        {
            let s = world.sites[k];
            let spots = Self::get_free_spots(&world.terrain, s.pos, RANGE_BUILD);
            self.jobs.push(JobOffer::new(Job::Build(TargetRef { id: s.id, pos: s.pos }), spots));
            proof {
                let sq = world.sites@;
                assert(sq.take(k as int + 1).drop_last() =~= sq.take(k as int));
                assert(sq.take(k as int + 1).last() == sq[k as int]);
                assert(self.jobs@ =~= old(self).jobs@ + build_offers(
                    sq.take(k as int + 1),
                    world.terrain,
                ));
            }
            k = k + 1;
        }
        proof {
            assert(world.sites@.take(world.sites@.len() as int) =~= world.sites@);
        }
    }

    fn scan_harvest_jobs(&mut self, world: &RoomSnapshot)
        requires
            world.wf(),
        ensures
            final(self).jobs@ == old(self).jobs@ + harvest_offers(world.sources@, world.terrain),
            final(self).creeps == old(self).creeps,
            final(self).towers == old(self).towers,
            final(self).room == old(self).room,
    {
        let mut k: usize = 0;
        while k < world.sources.len()
            invariant
                world.wf(),
                k <= world.sources@.len(),
                self.jobs@ == old(self).jobs@ + harvest_offers(
                    world.sources@.take(k as int),
                    world.terrain,
                ),
                self.creeps == old(self).creeps,
                self.towers == old(self).towers,
                self.room == old(self).room,
            decreases world.sources@.len() - k,
        {
            let s = world.sources[k];
            if s.energy != 0 {
                let spots = Self::get_free_spots(&world.terrain, s.pos, RANGE_HARVEST);
                self.jobs.push(JobOffer::new(Job::Harvest(TargetRef { id: s.id, pos: s.pos }),
                    spots));
            }
            proof {
                let sq = world.sources@;
                assert(sq.take(k as int + 1).drop_last() =~= sq.take(k as int));
                assert(sq.take(k as int + 1).last() == sq[k as int]);
                assert(self.jobs@ =~= old(self).jobs@ + harvest_offers(
                    sq.take(k as int + 1),
                    world.terrain,
                ));
            }
            k = k + 1;
        }
        proof {
            assert(world.sources@.take(world.sources@.len() as int) =~= world.sources@);
        }
    }

    fn scan_heal_jobs(&mut self, world: &RoomSnapshot)
        ensures
            final(self).jobs@ == old(self).jobs@ + heal_offers(world.friendlies@),
            final(self).creeps == old(self).creeps,
            final(self).towers == old(self).towers,
            final(self).room == old(self).room,
    {
        let mut k: usize = 0;
        while k < world.friendlies.len()
            invariant
                k <= world.friendlies@.len(),
                self.jobs@ == old(self).jobs@ + heal_offers(world.friendlies@.take(k as int)),
                self.creeps == old(self).creeps,
                self.towers == old(self).towers,
                self.room == old(self).room,
            decreases world.friendlies@.len() - k,
        {
            let f = world.friendlies[k];
            if f.hits != f.hits_max {
                self.jobs.push(JobOffer::new(Job::Heal(TargetRef { id: f.id, pos: f.pos }), 1));
            }
            proof {
                let sq = world.friendlies@;
                assert(sq.take(k as int + 1).drop_last() =~= sq.take(k as int));
                assert(sq.take(k as int + 1).last() == sq[k as int]);
                assert(self.jobs@ =~= old(self).jobs@ + heal_offers(sq.take(k as int + 1)));
            }
            k = k + 1;
        }
        proof {
            assert(world.friendlies@.take(world.friendlies@.len() as int) =~= world.friendlies@);
        }
    }

    fn scan_maintain_jobs(&mut self, world: &RoomSnapshot)
        requires
            world.wf(),
        ensures
            final(self).jobs@ == old(self).jobs@ + maintain_offers(
                world.structures@,
                world.terrain,
            ),
            final(self).creeps == old(self).creeps,
            final(self).towers == old(self).towers,
            final(self).room == old(self).room,
    {
        let mut k: usize = 0;
        while k < world.structures.len()
            invariant
                world.wf(),
                k <= world.structures@.len(),
                self.jobs@ == old(self).jobs@ + maintain_offers(
                    world.structures@.take(k as int),
                    world.terrain,
                ),
                self.creeps == old(self).creeps,
                self.towers == old(self).towers,
                self.room == old(self).room,
            decreases world.structures@.len() - k,
        {
            let s = world.structures[k];
            let is_store = match s.kind {
                StructureKind::Extension => true,
                StructureKind::Spawn => true,
                StructureKind::Tower => true,
                StructureKind::Other => false,
            };
            if is_store && s.store_free_energy != 0 {
                let spots = Self::get_free_spots(&world.terrain, s.pos, RANGE_TRANSFER);
                self.jobs.push(JobOffer::new(
                    Job::Maintain(
                        StructureRef {
                            id: s.id,
                            pos: s.pos,
                            hits: s.hits,
                            hits_max: s.hits_max,
                            store_free_energy: s.store_free_energy,
                        },
                    ),
                    spots,
                ));
            }
            proof {
                let sq = world.structures@;
                assert(sq.take(k as int + 1).drop_last() =~= sq.take(k as int));
                assert(sq.take(k as int + 1).last() == sq[k as int]);
                assert(self.jobs@ =~= old(self).jobs@ + maintain_offers(
                    sq.take(k as int + 1),
                    world.terrain,
                ));
            }
            k = k + 1;
        }
        proof {
            assert(world.structures@.take(world.structures@.len() as int) =~= world.structures@);
        }
    }

    fn scan_repair_jobs(&mut self, world: &RoomSnapshot)
        ensures
            final(self).jobs@ == old(self).jobs@ + repair_offers(
                world.structures@,
                world.energy_capacity,
            ),
            final(self).creeps == old(self).creeps,
            final(self).towers == old(self).towers,
            final(self).room == old(self).room,
    {
        let mut k: usize = 0;
        while k < world.structures.len()
            invariant
                k <= world.structures@.len(),
                self.jobs@ == old(self).jobs@ + repair_offers(
                    world.structures@.take(k as int),
                    world.energy_capacity,
                ),
                self.creeps == old(self).creeps,
                self.towers == old(self).towers,
                self.room == old(self).room,
            decreases world.structures@.len() - k,
        {
            let s = world.structures[k];
            proof {
                assert((world.energy_capacity as int) * (MAX_REPAIR_MULTIPLIER as int)
                    <= 0xffff_ffff * 0xffff_ffff) by (nonlinear_arith)
                    requires
                        world.energy_capacity <= 0xffff_ffffu32,
                        MAX_REPAIR_MULTIPLIER <= 0xffff_ffffu32,
                ;
            }
            if s.attackable && s.hits != 0 && (s.hits as u64) < (world.energy_capacity as u64) * (
            MAX_REPAIR_MULTIPLIER as u64) && s.hits < s.hits_max {
                self.jobs.push(JobOffer::new(
                    Job::Repair(
                        StructureRef {
                            id: s.id,
                            pos: s.pos,
                            hits: s.hits,
                            hits_max: s.hits_max,
                            store_free_energy: s.store_free_energy,
                        },
                    ),
                    1,
                ));
            }
            proof {
                let sq = world.structures@;
                assert(sq.take(k as int + 1).drop_last() =~= sq.take(k as int));
                assert(sq.take(k as int + 1).last() == sq[k as int]);
                assert(self.jobs@ =~= old(self).jobs@ + repair_offers(
                    sq.take(k as int + 1),
                    world.energy_capacity,
                ));
            }
            k = k + 1;
        }
        proof {
            assert(world.structures@.take(world.structures@.len() as int) =~= world.structures@);
        }
    }

    fn scan_upgrade_jobs(&mut self, world: &RoomSnapshot)
        requires
            world.wf(),
        ensures
            final(self).jobs@ == old(self).jobs@ + upgrade_offers(world.controller, world.terrain),
            final(self).creeps == old(self).creeps,
            final(self).towers == old(self).towers,
            final(self).room == old(self).room,
    {
        match &world.controller {
            Some(c) => {
                let spots = Self::get_free_spots(&world.terrain, c.pos, RANGE_UPGRADE_CONTROLLER);
                self.jobs.push(JobOffer::new(Job::Upgrade(TargetRef { id: c.id, pos: c.pos }),
                    spots));
                proof {
                    assert(self.jobs@ =~= old(self).jobs@ + upgrade_offers(
                        world.controller,
                        world.terrain,
                    ));
                }
            },
            None => {
                proof {
                    assert(self.jobs@ =~= old(self).jobs@ + upgrade_offers(
                        world.controller,
                        world.terrain,
                    ));
                }
            },
        }
    }

    /// Rebuild the offer pool from this tick's room snapshot: the old
    /// pool is discarded and the scanners run in their fixed category
    /// order. Every repair offer in the new pool targets a structure with
    /// health strictly between zero and the room's energy capacity times
    /// the repair multiplier, and below its maximum.
    pub fn scan(&mut self, world: &RoomSnapshot)
        requires
            world.wf(),
        ensures
            final(self).jobs@ == scan_pool(*world),
            final(self).creeps == old(self).creeps,
            final(self).towers == old(self).towers,
            final(self).room == old(self).room,
            forall|k: int|
                0 <= k < final(self).jobs@.len() ==> ((#[trigger] final(self).jobs@[k]).job
                    matches Job::Repair(r) ==> 0 < r.hits && r.hits < world.energy_capacity
                    * MAX_REPAIR_MULTIPLIER && r.hits < r.hits_max),
    {
        self.jobs.clear();
        self.scan_attack_jobs(world);
        self.scan_build_jobs(world);
        self.scan_harvest_jobs(world);
        self.scan_heal_jobs(world);
        self.scan_maintain_jobs(world);
        self.scan_repair_jobs(world);
        self.scan_upgrade_jobs(world);
        proof {
            assert(self.jobs@ =~= scan_pool(*world));
            lemma_scan_pool_repair_sound(*world);
        }
    }

    /// A regulator for one room, registering the given live units, each
    /// idle, with an empty offer pool.
    pub fn new(room: String, creeps: &Vec<CreepInfo>, towers: &Vec<TowerInfo>) -> (r: Self)
        ensures
            r.room@ == room@,
            r.jobs@.len() == 0,
            r.creeps@.len() == creeps@.len(),
            forall|i: int|
                0 <= i < creeps@.len() ==> {
                    let c = #[trigger] r.creeps@[i];
                    &&& c.name@ == creeps@[i].name@
                    &&& c.pos == creeps@[i].pos
                    &&& c.energy_capacity == creeps@[i].energy_capacity
                    &&& c.energy_free == creeps@[i].energy_free
                    &&& c.energy_stored == creeps@[i].energy_stored
                    &&& c.ticks_to_live == creeps@[i].ticks_to_live
                    &&& c.current_job is None
                },
            r.towers@.len() == towers@.len(),
            forall|i: int|
                0 <= i < towers@.len() ==> {
                    let t = #[trigger] r.towers@[i];
                    &&& t.id@ == towers@[i].id@
                    &&& t.pos == towers@[i].pos
                    &&& t.energy_capacity == towers@[i].energy_capacity
                    &&& t.current_job is None
                },
    {
        let mut cs: Vec<Creep> = Vec::new();
        let mut i: usize = 0;
        while i < creeps.len()
            invariant
                i <= creeps@.len(),
                cs@.len() == i,
                forall|k: int|
                    0 <= k < i ==> {
                        let c = #[trigger] cs@[k];
                        &&& c.name@ == creeps@[k].name@
                        &&& c.pos == creeps@[k].pos
                        &&& c.energy_capacity == creeps@[k].energy_capacity
                        &&& c.energy_free == creeps@[k].energy_free
                        &&& c.energy_stored == creeps@[k].energy_stored
                        &&& c.ticks_to_live == creeps@[k].ticks_to_live
                        &&& c.current_job is None
                    },
            decreases creeps@.len() - i,
        {
            let info = CreepInfo {
                name: creeps[i].name.clone(),
                pos: creeps[i].pos,
                energy_capacity: creeps[i].energy_capacity,
                energy_free: creeps[i].energy_free,
                energy_stored: creeps[i].energy_stored,
                ticks_to_live: creeps[i].ticks_to_live,
            };
            cs.push(Creep::from_creep(info));
            i = i + 1;
        }
        let mut ts: Vec<Tower> = Vec::new();
        let mut j: usize = 0;
        while j < towers.len()
            invariant
                j <= towers@.len(),
                ts@.len() == j,
                forall|k: int|
                    0 <= k < j ==> {
                        let t = #[trigger] ts@[k];
                        &&& t.id@ == towers@[k].id@
                        &&& t.pos == towers@[k].pos
                        &&& t.energy_capacity == towers@[k].energy_capacity
                        &&& t.current_job is None
                    },
            decreases towers@.len() - j,
        {
            let info = TowerInfo {
                id: towers[j].id.clone(),
                pos: towers[j].pos,
                energy_capacity: towers[j].energy_capacity,
            };
            ts.push(Tower::from_tower(info));
            j = j + 1;
        }
        Self { creeps: cs, towers: ts, jobs: Vec::new(), room }
    }

    /// Point the regulator at a (renamed or rebuilt) room.
    pub fn set_room(&mut self, room: String)
        ensures
            final(self).room@ == room@,
            final(self).creeps == old(self).creeps,
            final(self).towers == old(self).towers,
            final(self).jobs == old(self).jobs,
    {
        self.room = room;
    }

    /// Drop every registered worker whose name is no longer among the
    /// live ones; the survivors keep their order and their jobs.
    pub fn remove_dead_creeps(&mut self, live: &Vec<String>)
        ensures
            final(self).creeps@ == retained_creeps(old(self).creeps@, live@),
            final(self).towers == old(self).towers,
            final(self).jobs == old(self).jobs,
            final(self).room == old(self).room,
    {
        let ghost orig = self.creeps@;
        let mut kept: Vec<Creep> = Vec::new();
        let ghost mut i: int = 0;
        while self.creeps.len() > 0
            invariant
                0 <= i <= orig.len(),
                self.creeps@ == orig.skip(i),
                kept@ == retained_creeps(orig.take(i), live@),
                self.towers == old(self).towers,
                self.jobs == old(self).jobs,
                self.room == old(self).room,
            decreases orig.len() - i,
        {
            let c = self.creeps.remove(0);
            proof {
                assert(c == orig[i]);
                assert(orig.skip(i).remove(0) =~= orig.skip(i + 1));
            }
            let keep = name_in_vec(live, &c.name);
            if keep {
                kept.push(c);
            }
            proof {
                i = i + 1;
                assert(orig.take(i).drop_last() =~= orig.take(i - 1));
                assert(orig.take(i).last() == orig[i - 1]);
                assert(kept@ =~= retained_creeps(orig.take(i), live@));
            }
        }
        self.creeps = kept;
        proof {
            assert(orig.take(orig.len() as int) =~= orig);
        }
    }

    /// Drop every registered tower whose identifier is no longer among
    /// the live ones; the survivors keep their order and their jobs.
    pub fn remove_dead_towers(&mut self, live: &Vec<String>)
        ensures
            final(self).towers@ == retained_towers(old(self).towers@, live@),
            final(self).creeps == old(self).creeps,
            final(self).jobs == old(self).jobs,
            final(self).room == old(self).room,
    {
        let ghost orig = self.towers@;
        let mut kept: Vec<Tower> = Vec::new();
        let ghost mut i: int = 0;
        while self.towers.len() > 0
            invariant
                0 <= i <= orig.len(),
                self.towers@ == orig.skip(i),
                kept@ == retained_towers(orig.take(i), live@),
                self.creeps == old(self).creeps,
                self.jobs == old(self).jobs,
                self.room == old(self).room,
            decreases orig.len() - i,
        {
            let t = self.towers.remove(0);
            proof {
                assert(t == orig[i]);
                assert(orig.skip(i).remove(0) =~= orig.skip(i + 1));
            }
            let keep = name_in_vec(live, &t.id);
            if keep {
                kept.push(t);
            }
            proof {
                i = i + 1;
                assert(orig.take(i).drop_last() =~= orig.take(i - 1));
                assert(orig.take(i).last() == orig[i - 1]);
                assert(kept@ =~= retained_towers(orig.take(i), live@));
            }
        }
        self.towers = kept;
        proof {
            assert(orig.take(orig.len() as int) =~= orig);
        }
    }

    /// Register this tick's reading of a live worker: an already-known
    /// worker (first match by name) gets the fresh snapshot and keeps its
    /// job; an unknown one is appended idle. Returns the worker's index.
    pub fn sync_creep(&mut self, info: CreepInfo) -> (idx: usize)
        ensures
            final(self).towers == old(self).towers,
            final(self).jobs == old(self).jobs,
            final(self).room == old(self).room,
            (idx as int) < final(self).creeps@.len(),
            final(self).creeps@[idx as int].name@ == info.name@,
            final(self).creeps@[idx as int].pos == info.pos,
            final(self).creeps@[idx as int].energy_capacity == info.energy_capacity,
            final(self).creeps@[idx as int].energy_free == info.energy_free,
            final(self).creeps@[idx as int].energy_stored == info.energy_stored,
            final(self).creeps@[idx as int].ticks_to_live == info.ticks_to_live,
            creep_named(old(self).creeps@, info.name@) ==> {
                &&& final(self).creeps@.len() == old(self).creeps@.len()
                &&& (idx as int) < old(self).creeps@.len()
                &&& old(self).creeps@[idx as int].name@ == info.name@
                &&& (forall|j: int| 0 <= j < idx ==> old(self).creeps@[j].name@ != info.name@)
                &&& (forall|j: int|
                    0 <= j < old(self).creeps@.len() && j != idx ==> final(self).creeps@[j] == old(
                        self,
                    ).creeps@[j])
                &&& final(self).creeps@[idx as int].current_job == old(self).creeps@[idx
                    as int].current_job
            },
            !creep_named(old(self).creeps@, info.name@) ==> {
                &&& final(self).creeps@.len() == old(self).creeps@.len() + 1
                &&& idx == old(self).creeps@.len()
                &&& (forall|j: int|
                    0 <= j < old(self).creeps@.len() ==> final(self).creeps@[j] == old(
                        self,
                    ).creeps@[j])
                &&& final(self).creeps@[idx as int].current_job is None
            },
    {
        let mut j: usize = 0;
        while j < self.creeps.len()
            invariant
                j <= self.creeps@.len(),
                self.creeps@ == old(self).creeps@,
                self.towers == old(self).towers,
                self.jobs == old(self).jobs,
                self.room == old(self).room,
                forall|t: int| 0 <= t < j ==> self.creeps@[t].name@ != info.name@,
            decreases self.creeps@.len() - j,
        {
            if self.creeps[j].name == info.name {
                let mut c = self.creeps.remove(j);
                c.set_creep(info);
                self.creeps.insert(j, c);
                proof {
                    assert(forall|t: int|
                        0 <= t < self.creeps@.len() && t != j ==> self.creeps@[t] == old(
                            self,
                        ).creeps@[t]);
                }
                return j;
            }
            j = j + 1;
        }
        self.creeps.push(Creep::from_creep(info));
        self.creeps.len() - 1
    }

    /// Register this tick's reading of a live tower: an already-known
    /// tower (first match by identifier) gets the fresh snapshot and
    /// keeps its job; an unknown one is appended idle. Returns the
    /// tower's index.
    pub fn sync_tower(&mut self, info: TowerInfo) -> (idx: usize)
        ensures
            final(self).creeps == old(self).creeps,
            final(self).jobs == old(self).jobs,
            final(self).room == old(self).room,
            (idx as int) < final(self).towers@.len(),
            final(self).towers@[idx as int].id@ == info.id@,
            final(self).towers@[idx as int].pos == info.pos,
            final(self).towers@[idx as int].energy_capacity == info.energy_capacity,
            tower_with_id(old(self).towers@, info.id@) ==> {
                &&& final(self).towers@.len() == old(self).towers@.len()
                &&& (idx as int) < old(self).towers@.len()
                &&& old(self).towers@[idx as int].id@ == info.id@
                &&& (forall|j: int| 0 <= j < idx ==> old(self).towers@[j].id@ != info.id@)
                &&& (forall|j: int|
                    0 <= j < old(self).towers@.len() && j != idx ==> final(self).towers@[j] == old(
                        self,
                    ).towers@[j])
                &&& final(self).towers@[idx as int].current_job == old(self).towers@[idx
                    as int].current_job
            },
            !tower_with_id(old(self).towers@, info.id@) ==> {
                &&& final(self).towers@.len() == old(self).towers@.len() + 1
                &&& idx == old(self).towers@.len()
                &&& (forall|j: int|
                    0 <= j < old(self).towers@.len() ==> final(self).towers@[j] == old(
                        self,
                    ).towers@[j])
                &&& final(self).towers@[idx as int].current_job is None
            },
    {
        let mut j: usize = 0;
        while j < self.towers.len()
            invariant
                j <= self.towers@.len(),
                self.towers@ == old(self).towers@,
                self.creeps == old(self).creeps,
                self.jobs == old(self).jobs,
                self.room == old(self).room,
                forall|t: int| 0 <= t < j ==> self.towers@[t].id@ != info.id@,
            decreases self.towers@.len() - j,
        {
            if self.towers[j].id == info.id {
                let mut t = self.towers.remove(j);
                t.set_tower(info);
                self.towers.insert(j, t);
                proof {
                    assert(forall|k: int|
                        0 <= k < self.towers@.len() && k != j ==> self.towers@[k] == old(
                            self,
                        ).towers@[k]);
                }
                return j;
            }
            j = j + 1;
        }
        self.towers.push(Tower::from_tower(info));
        self.towers.len() - 1
    }

    /// Run the worker at `i` against the shared pool: the job it works
    /// this tick, under the worker selection contract
    /// [`worker_select_post`]. The pool's counters only ever decrease.
    pub fn creep_select(&mut self, i: usize) -> (r: Option<Job>)
        requires
            i < old(self).creeps@.len(),
        ensures
            final(self).creeps == old(self).creeps,
            final(self).towers == old(self).towers,
            final(self).room == old(self).room,
            worker_select_post(
                old(self).creeps@[i as int],
                old(self).jobs@,
                final(self).jobs@,
                r,
            ),
    {
        self.creeps[i].select_job(&mut self.jobs)
    }

    /// Run the tower at `i` against the shared pool: the job it works
    /// this tick, under the tower selection contract
    /// [`tower_select_post`]. The pool's counters only ever decrease.
    pub fn tower_select(&mut self, i: usize) -> (r: Option<Job>)
        requires
            i < old(self).towers@.len(),
        ensures
            final(self).creeps == old(self).creeps,
            final(self).towers == old(self).towers,
            final(self).room == old(self).room,
            tower_select_post(
                old(self).towers@[i as int],
                old(self).jobs@,
                final(self).jobs@,
                r,
            ),
    {
        self.towers[i].select_job(&mut self.jobs)
    }

    /// Record how the worker at `i` came out of this tick's execution of
    /// `job`: it keeps the job only if `held`; after any release its job
    /// slot is empty at once.
    pub fn creep_apply(&mut self, i: usize, job: Job, held: bool)
        requires
            i < old(self).creeps@.len(),
        ensures
            final(self).towers == old(self).towers,
            final(self).jobs == old(self).jobs,
            final(self).room == old(self).room,
            final(self).creeps@.len() == old(self).creeps@.len(),
            forall|j: int|
                0 <= j < old(self).creeps@.len() && j != i ==> final(self).creeps@[j] == old(
                    self,
                ).creeps@[j],
            held ==> final(self).creeps@[i as int].current_job == Some(job),
            !held ==> final(self).creeps@[i as int].current_job is None,
            final(self).creeps@[i as int].name@ == old(self).creeps@[i as int].name@,
    {
        let mut c = self.creeps.remove(i);
        c.apply_execution(job, held);
        self.creeps.insert(i, c);
    }

    /// Record how the tower at `i` came out of this tick's execution of
    /// `job`: it keeps the job only if `held`; after any release its job
    /// slot is empty at once.
    pub fn tower_apply(&mut self, i: usize, job: Job, held: bool)
        requires
            i < old(self).towers@.len(),
        ensures
            final(self).creeps == old(self).creeps,
            final(self).jobs == old(self).jobs,
            final(self).room == old(self).room,
            final(self).towers@.len() == old(self).towers@.len(),
            forall|j: int|
                0 <= j < old(self).towers@.len() && j != i ==> final(self).towers@[j] == old(
                    self,
                ).towers@[j],
            held ==> final(self).towers@[i as int].current_job == Some(job),
            !held ==> final(self).towers@[i as int].current_job is None,
            final(self).towers@[i as int].id@ == old(self).towers@[i as int].id@,
    {
        let mut t = self.towers.remove(i);
        t.apply_execution(job, held);
        self.towers.insert(i, t);
    }
}

} // verus!
