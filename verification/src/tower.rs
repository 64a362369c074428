//! A stationary tower unit: restricted to attack and repair work, with
//! the same greedy selection over the shared pool and its own execution
//! contracts. Towers do not move, so there is no move-closer path; an
//! out-of-range status on a tower action is an error, not a retry.
use vstd::prelude::*;
use crate::constants::MAX_REPAIR_MULTIPLIER;
use crate::job::Job;
use crate::job_offer::JobOffer;
use crate::policy::{
    claim_offer, is_pick, pool_after_claim, pool_only_consumed, score, tower_offer_eligible,
    tower_offer_ok,
};
use crate::world::{Position, TargetState, WorldCode};

verus! {

/// Why a tower command could not be carried out.
#[derive(Clone, Copy, PartialEq, Eq, Structural, Debug)]
pub enum Error {
    Attack(WorldCode),
    Repair(WorldCode),
}

/// A tower command the driver is asked to issue.
#[derive(Clone, Copy, PartialEq, Eq, Structural, Debug)]
pub enum TowerAction {
    AttackUnit,
    RepairStructure,
}

/// First decision of a tick's execution: give the job up, or issue a
/// command.
#[derive(Clone, Copy, PartialEq, Eq, Structural, Debug)]
pub enum TowerStep {
    Release,
    Act(TowerAction),
}

/// Decision after a tower command's status came back.
#[derive(Clone, Copy, PartialEq, Eq, Structural, Debug)]
pub enum TowerOutcome {
    Hold,
    Release,
    Fail(Error),
}

/// One tick's snapshot of a live tower.
#[derive(Clone, Debug)]
pub struct TowerInfo {
    /// Stable structure identifier, the key its state is held under.
    pub id: String,
    pub pos: Position,
    /// Total energy capacity of the tower's store.
    pub energy_capacity: u32,
}

/// A tower unit: the latest snapshot plus its persistent current job. A
/// tower holds at most one job at a time, by construction of this field.
#[derive(Debug)]
pub struct Tower {
    pub id: String,
    pub pos: Position,
    pub energy_capacity: u32,
    pub current_job: Option<Job>,
}

/// A tower executes only attack and repair jobs.
pub open spec fn spec_tower_job(job: Job) -> bool {
    job is Attack || job is Repair
}

/// The re-resolved target state a tower execution contract expects.
pub open spec fn tower_target_matches(job: Job, t: TargetState) -> bool {
    match job {
        Job::Attack(_) => t is Gone || t is UnitFound,
        Job::Repair(_) => t is Gone || t is Damageable,
        _ => false,
    }
}

/// The first decision of a tower's execution: release when the target is
/// gone, or (for repair) already whole or too durable to be worth tower
/// energy; otherwise the command to issue.
pub open spec fn spec_tower_plan(t: Tower, job: Job, target: TargetState) -> TowerStep {
    match job {
        Job::Attack(_) => match target {
            TargetState::UnitFound => TowerStep::Act(TowerAction::AttackUnit),
            _ => TowerStep::Release,
        },
        Job::Repair(_) => match target {
            TargetState::Damageable { hits, hits_max } => if hits == hits_max || hits
                > t.energy_capacity * MAX_REPAIR_MULTIPLIER {
                TowerStep::Release
            } else {
                TowerStep::Act(TowerAction::RepairStructure)
            },
            _ => TowerStep::Release,
        },
        _ => TowerStep::Release,
    }
}

/// The decision after a tower command's status came back: an attack that
/// went through releases once the target's health, re-read after the
/// shot, is zero (the enemy is dead) and holds otherwise; a repair that
/// went through holds; a not-enough-resource status is always a release
/// signal; anything else is the typed error of the failing action.
pub open spec fn spec_tower_after_action(
    job: Job,
    code: WorldCode,
    target_hits_after: u32,
) -> TowerOutcome {
    match code {
        WorldCode::Success => if job is Attack && target_hits_after == 0 {
            TowerOutcome::Release
        } else {
            TowerOutcome::Hold
        },
        WorldCode::NotEnough => TowerOutcome::Release,
        _ => if job is Attack {
            TowerOutcome::Fail(Error::Attack(code))
        } else {
            TowerOutcome::Fail(Error::Repair(code))
        },
    }
}

/// Whether `hits` is strictly above the tower's repair limit.
fn above_repair_limit(hits: u32, energy_capacity: u32) -> (r: bool)
    ensures
        r == (hits > energy_capacity * MAX_REPAIR_MULTIPLIER),
{
    proof {
        assert((energy_capacity as int) * (MAX_REPAIR_MULTIPLIER as int) <= 0xffff_ffff
            * 0xffff_ffff) by (nonlinear_arith)
            requires
                energy_capacity <= 0xffff_ffffu32,
                MAX_REPAIR_MULTIPLIER <= 0xffff_ffffu32,
        ;
    }
    (hits as u64) > (energy_capacity as u64) * (MAX_REPAIR_MULTIPLIER as u64)
}

impl Tower {
    /// The offers this tower may take this tick.
    pub open spec fn spec_eligibility(self) -> spec_fn(JobOffer) -> bool {
        |o: JobOffer| tower_offer_ok(self.energy_capacity, o)
    }

    /// A fresh tower unit holding no job.
    pub fn from_tower(info: TowerInfo) -> (r: Self)
        ensures
            r.id@ == info.id@,
            r.pos == info.pos,
            r.energy_capacity == info.energy_capacity,
            r.current_job is None,
    {
        Self {
            id: info.id,
            pos: info.pos,
            energy_capacity: info.energy_capacity,
            current_job: None,
        }
    }

    /// The tower's stable identifier.
    pub fn get_id(&self) -> (r: String)
        ensures
            r@ == self.id@,
    {
        self.id.clone()
    }

    /// Replace the snapshot with this tick's readings; the current job
    /// survives.
    pub fn set_tower(&mut self, info: TowerInfo)
        ensures
            final(self).id@ == info.id@,
            final(self).pos == info.pos,
            final(self).energy_capacity == info.energy_capacity,
            final(self).current_job == old(self).current_job,
    {
        self.id = info.id;
        self.pos = info.pos;
        self.energy_capacity = info.energy_capacity;
    }

    /// The job this tower works this tick: the held one if any, else the
    /// eligible offer of minimal priority-times-range score (claiming one
    /// of its places), else none. See [`tower_select_post`].
    pub fn select_job(&self, jobs: &mut Vec<JobOffer>) -> (r: Option<Job>)
        ensures
            tower_select_post(*self, old(jobs)@, final(jobs)@, r),
    {
        match &self.current_job {
            Some(j) => Some(*j),
            None => {
                let mut best: Option<usize> = None;
                let mut k: usize = 0;
                while k < jobs.len()
                    invariant
                        k <= jobs@.len(),
                        jobs@ == old(jobs)@,
                        best matches Some(b) ==> {
                            &&& b < k
                            &&& self.spec_eligibility()(jobs@[b as int])
                            &&& forall|j: int|
                                0 <= j < k && #[trigger] self.spec_eligibility()(jobs@[j])
                                    ==> crate::policy::spec_score(jobs@[b as int].job, self.pos)
                                    <= crate::policy::spec_score(jobs@[j].job, self.pos)
                            &&& forall|j: int|
                                b < j < k && #[trigger] self.spec_eligibility()(jobs@[j])
                                    ==> crate::policy::spec_score(jobs@[b as int].job, self.pos)
                                    < crate::policy::spec_score(jobs@[j].job, self.pos)
                        },
                        best is None ==> forall|j: int|
                            0 <= j < k ==> !(#[trigger] self.spec_eligibility()(jobs@[j])),
                    decreases jobs@.len() - k,
                {
                    let eligible = tower_offer_eligible(self.energy_capacity, &jobs[k]);
                    if eligible {
                        best = match best {
                            None => Some(k),
                            Some(b) => {
                                if score(&jobs[k].job, self.pos) <= score(&jobs[b].job, self.pos) {
                                    Some(k)
                                } else {
                                    Some(b)
                                }
                            },
                        };
                    }
                    k = k + 1;
                }
                match best {
                    None => None,
                    Some(b) => {
                        proof {
                            assert(is_pick(jobs@, self.spec_eligibility(), self.pos, b as int));
                            assert forall|i: int|
                                #[trigger] is_pick(jobs@, self.spec_eligibility(), self.pos, i)
                                    implies i == b as int by {
                                crate::policy::lemma_pick_deterministic(
                                    jobs@,
                                    self.spec_eligibility(),
                                    self.pos,
                                    i,
                                    b as int,
                                );
                            }
                        }
                        let job = jobs[b].job;
                        claim_offer(jobs, b, 0);
                        Some(job)
                    },
                }
            },
        }
    }

    /// Record how this tick's execution left the tower: keep the job if
    /// still worth holding, else become idle. The tower's job slot is
    /// empty immediately after any release.
    pub fn apply_execution(&mut self, job: Job, held: bool)
        ensures
            held ==> final(self).current_job == Some(job),
            !held ==> final(self).current_job is None,
            final(self).id@ == old(self).id@,
            final(self).pos == old(self).pos,
            final(self).energy_capacity == old(self).energy_capacity,
    {
        self.current_job = if held {
            Some(job)
        } else {
            None
        };
    }

    /// First decision of executing `job` against the re-resolved
    /// `target`; see [`spec_tower_plan`].
    pub fn plan_job(&self, job: &Job, target: &TargetState) -> (s: TowerStep)
        requires
            spec_tower_job(*job),
            tower_target_matches(*job, *target),
        ensures
            s == spec_tower_plan(*self, *job, *target),
            *target is Gone ==> s is Release,
    {
        match job {
            Job::Attack(_) => {
                match target {
                    TargetState::UnitFound => TowerStep::Act(TowerAction::AttackUnit),
                    _ => TowerStep::Release,
                }
            },
            Job::Repair(_) => {
                match target {
                    TargetState::Damageable { hits, hits_max } => {
                        if *hits == *hits_max || above_repair_limit(*hits, self.energy_capacity) {
                            TowerStep::Release
                        } else {
                            TowerStep::Act(TowerAction::RepairStructure)
                        }
                    },
                    _ => TowerStep::Release,
                }
            },
            _ => TowerStep::Release,
        }
    }

    /// Decision after a tower command's status `code` came back, with the
    /// attack target's health as re-read after the shot (zero when the
    /// target is gone); see [`spec_tower_after_action`].
    pub fn after_action(&self, job: &Job, code: WorldCode, target_hits_after: u32) -> (r:
        TowerOutcome)
        requires
            spec_tower_job(*job),
        ensures
            r == spec_tower_after_action(*job, code, target_hits_after),
            code is NotEnough ==> r is Release,
    {
        match code {
            WorldCode::Success => {
                if matches!(job, Job::Attack(_)) && target_hits_after == 0 {
                    TowerOutcome::Release
                } else {
                    TowerOutcome::Hold
                }
            },
            WorldCode::NotEnough => TowerOutcome::Release,
            _ => {
                if matches!(job, Job::Attack(_)) {
                    TowerOutcome::Fail(Error::Attack(code))
                } else {
                    TowerOutcome::Fail(Error::Repair(code))
                }
            },
        }
    }
}

/// What holds of the pool and result after a tower ran its selection:
/// the pool only ever shrinks; a held job is kept and the pool untouched;
/// an idle tower gets exactly the deterministic pick, whose place is
/// claimed, or nothing when no offer is eligible; every job a tower wins
/// is an attack or repair job.
pub open spec fn tower_select_post(
    t: Tower,
    before: Seq<JobOffer>,
    after: Seq<JobOffer>,
    r: Option<Job>,
) -> bool {
    &&& pool_only_consumed(before, after)
    &&& (t.current_job matches Some(j) ==> r == Some(j) && after == before)
    &&& (t.current_job is None ==> {
        &&& (r is Some <==> exists|i: int| is_pick(before, t.spec_eligibility(), t.pos, i))
        &&& (forall|i: int|
            #[trigger] is_pick(before, t.spec_eligibility(), t.pos, i) ==> r == Some(before[i].job)
                && after == pool_after_claim(before, i, 0))
        &&& (r is None ==> after == before)
    })
    &&& (t.current_job is None ==> (r matches Some(j) ==> spec_tower_job(j)))
}

} // verus!
