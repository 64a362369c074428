//! The shared assignment policy: eligibility filters, the cost score, the
//! deterministic pick among candidates, and claiming a place on an offer.
use vstd::prelude::*;
use crate::constants::{LOW_LIFETIME_THRESHOLD, MAX_REPAIR_MULTIPLIER};
use crate::job::Job;
use crate::job_offer::JobOffer;
use crate::world::{Position, range_between};

verus! {

/// Cost of sending a unit at `pos` to `job`: category priority times
/// interaction range. Lower is better.
pub open spec fn spec_score(job: Job, pos: Position) -> int {
    job.spec_priority() * range_between(pos, job.spec_target_pos())
}

/// Cost of sending a unit at `pos` to `job`.
pub fn score(job: &Job, pos: Position) -> (r: u64)
    ensures
        r == spec_score(*job, pos),
{
    let p = job.priority();
    let d = job.get_range_to(pos);
    proof {
        assert((p as int) * (d as int) <= 0xffff_ffff * 0xffff_ffff) by (nonlinear_arith)
            requires
                p <= 0xffff_ffffu32,
                d <= 0xffff_ffffu32,
        ;
    }
    (p as u64) * (d as u64)
}

/// The repair-worthiness test shared by workers and towers: the target's
/// health is still below the unit's energy capacity times the repair
/// multiplier.
fn below_repair_cutoff(hits: u32, energy_capacity: u32) -> (r: bool)
    ensures
        r == (hits < energy_capacity * MAX_REPAIR_MULTIPLIER),
{
    proof {
        assert((energy_capacity as int) * (MAX_REPAIR_MULTIPLIER as int) <= 0xffff_ffff
            * 0xffff_ffff) by (nonlinear_arith)
            requires
                energy_capacity <= 0xffff_ffffu32,
                MAX_REPAIR_MULTIPLIER <= 0xffff_ffffu32,
        ;
    }
    (hits as u64) < (energy_capacity as u64) * (MAX_REPAIR_MULTIPLIER as u64)
}

/// Whether a worker with the given store readings and lifetime may take
/// `o`: the offer must have places left; attack and heal work is reserved
/// for towers; repair is only worthwhile while the target's health is below
/// the worker's energy capacity times the repair multiplier; a full (or
/// soon-expiring) worker does not harvest; an empty worker only harvests.
pub open spec fn worker_eligible(
    energy_capacity: u32,
    energy_free: u32,
    energy_stored: u32,
    ticks_to_live: u32,
    o: JobOffer,
) -> bool {
    &&& o.available_places > 0
    &&& !(o.job is Attack)
    &&& !(o.job is Heal)
    &&& (o.job matches Job::Repair(t) ==> t.hits < energy_capacity * MAX_REPAIR_MULTIPLIER)
    &&& ((energy_free == 0 || ticks_to_live < LOW_LIFETIME_THRESHOLD) ==> !(o.job is Harvest))
    &&& (energy_stored == 0 ==> o.job is Harvest)
}

/// Whether a worker may take `o`; mirrors [`worker_eligible`].
pub fn worker_offer_eligible(
    energy_capacity: u32,
    energy_free: u32,
    energy_stored: u32,
    ticks_to_live: u32,
    o: &JobOffer,
) -> (r: bool)
    ensures
        r == worker_eligible(energy_capacity, energy_free, energy_stored, ticks_to_live, *o),
{
    if o.available_places == 0 {
        return false;
    }
    match o.job {
        Job::Attack(_) => false,
        Job::Heal(_) => false,
        Job::Repair(t) => energy_stored != 0 && below_repair_cutoff(t.hits, energy_capacity),
        Job::Harvest(_) => !(energy_free == 0 || ticks_to_live < LOW_LIFETIME_THRESHOLD),
        _ => energy_stored != 0,
    }
}

/// Whether a tower with the given energy capacity may take `o`: only attack
/// and repair work, the latter only while the target's health is below the
/// tower's energy capacity times the repair multiplier.
pub open spec fn tower_offer_ok(energy_capacity: u32, o: JobOffer) -> bool {
    &&& o.available_places > 0
    &&& match o.job {
        Job::Attack(_) => true,
        Job::Repair(t) => t.hits < energy_capacity * MAX_REPAIR_MULTIPLIER,
        _ => false,
    }
}

/// Whether a tower may take `o`; mirrors [`tower_offer_ok`].
pub fn tower_offer_eligible(energy_capacity: u32, o: &JobOffer) -> (r: bool)
    ensures
        r == tower_offer_ok(energy_capacity, *o),
{
    if o.available_places == 0 {
        return false;
    }
    match o.job {
        Job::Attack(_) => true,
        Job::Repair(t) => below_repair_cutoff(t.hits, energy_capacity),
        _ => false,
    }
}

/// `i` is the index the greedy policy picks from `jobs` for a unit at
/// `pos` under the eligibility filter `elig`: an eligible offer of minimal
/// score, and the last such in pool order. At most one index satisfies
/// this, so the pick is deterministic for a fixed pool order.
pub open spec fn is_pick(
    jobs: Seq<JobOffer>,
    elig: spec_fn(JobOffer) -> bool,
    pos: Position,
    i: int,
) -> bool {
    &&& 0 <= i < jobs.len()
    &&& elig(jobs[i])
    &&& forall|j: int|
        0 <= j < jobs.len() && #[trigger] elig(jobs[j]) ==> spec_score(jobs[i].job, pos)
            <= spec_score(jobs[j].job, pos)
    &&& forall|j: int|
        i < j < jobs.len() && #[trigger] elig(jobs[j]) ==> spec_score(jobs[i].job, pos)
            < spec_score(jobs[j].job, pos)
}

/// For a fixed pool, filter and position, the pick is unique: even offers
/// of equal score cannot both be chosen, so ties never make the outcome
/// depend on anything but the pool order.
pub proof fn lemma_pick_deterministic(
    jobs: Seq<JobOffer>,
    elig: spec_fn(JobOffer) -> bool,
    pos: Position,
    i1: int,
    i2: int,
)
    requires
        is_pick(jobs, elig, pos, i1),
        is_pick(jobs, elig, pos, i2),
    ensures
        i1 == i2,
{
    if i1 < i2 {
        assert(spec_score(jobs[i1].job, pos) < spec_score(jobs[i2].job, pos));
        assert(spec_score(jobs[i2].job, pos) <= spec_score(jobs[i1].job, pos));
    }
    if i2 < i1 {
        assert(spec_score(jobs[i2].job, pos) < spec_score(jobs[i1].job, pos));
        assert(spec_score(jobs[i1].job, pos) <= spec_score(jobs[i2].job, pos));
    }
}

/// The places left on `o` after a unit carrying `carried` energy claims a
/// place: one place is consumed, and a maintain offer whose target's free
/// capacity is already covered by the carried energy alone is closed
/// outright, so no second unit is sent to a store one carrier can fill.
pub open spec fn places_after_claim(o: JobOffer, carried: u32) -> u32 {
    let dec = (o.available_places - 1) as u32;
    if o.job matches Job::Maintain(t) && dec != 0 && t.store_free_energy <= carried {
        0u32
    } else {
        dec
    }
}

/// The pool after a claim differs from the pool before it only at `i`,
/// whose job is unchanged and whose places become [`places_after_claim`].
pub open spec fn pool_after_claim(jobs: Seq<JobOffer>, i: int, carried: u32) -> Seq<JobOffer> {
    jobs.update(
        i,
        JobOffer { available_places: places_after_claim(jobs[i], carried), job: jobs[i].job },
    )
}

/// Capacity counters never grow within a tick: `after` holds the same jobs
/// in the same order as `before`, each with at most as many places left.
pub open spec fn pool_only_consumed(before: Seq<JobOffer>, after: Seq<JobOffer>) -> bool {
    &&& after.len() == before.len()
    &&& forall|k: int|
        0 <= k < before.len() ==> (#[trigger] after[k]).job == before[k].job
            && after[k].available_places <= before[k].available_places
}

/// Consume one place of `jobs[i]` for a unit carrying `carried` energy.
pub fn claim_offer(jobs: &mut Vec<JobOffer>, i: usize, carried: u32)
    requires
        i < old(jobs)@.len(),
        old(jobs)@[i as int].available_places > 0,
    ensures
        final(jobs)@ == pool_after_claim(old(jobs)@, i as int, carried),
        pool_only_consumed(old(jobs)@, final(jobs)@),
{
    let offer = jobs[i];
    let dec = offer.available_places - 1;
    let places = match offer.job {
        Job::Maintain(t) => {
            if dec != 0 && t.store_free_energy <= carried {
                0
            } else {
                dec
            }
        },
        _ => dec,
    };
    jobs.set(i, JobOffer { available_places: places, job: offer.job });
    assert(jobs@ =~= pool_after_claim(old(jobs)@, i as int, carried));
}

} // verus!
