//! A worker unit: its per-tick snapshot, its persistent current job, the
//! greedy job selection run while idle, and the per-category execution
//! contracts that decide each tick whether the held job is still worth
//! keeping.
//!
//! Execution is split from the world: `plan_job` decides, from the unit
//! and a re-resolved target, whether to release the job or which command
//! to issue; `after_action` and `after_move` turn the world's status codes
//! into hold / release / error. The surrounding driver issues the actual
//! commands and feeds the codes back.
use vstd::prelude::*;
use crate::job::Job;
use crate::job_offer::JobOffer;
use crate::policy::{
    claim_offer, is_pick, pool_after_claim, pool_only_consumed, score, worker_eligible,
    worker_offer_eligible,
};
use crate::world::{Position, TargetState, WorldCode, range_between};

verus! {

/// Why a worker command could not be carried out: which action failed,
/// with the raw status the world reported.
#[derive(Clone, Copy, PartialEq, Eq, Structural, Debug)]
pub enum Error {
    Build(WorldCode),
    Harvest(WorldCode),
    Maintain(WorldCode),
    Move(WorldCode),
    Repair(WorldCode),
    Upgrade(WorldCode),
}

/// A worker command the driver is asked to issue.
#[derive(Clone, Copy, PartialEq, Eq, Structural, Debug)]
pub enum CreepAction {
    BuildSite,
    HarvestSource,
    TransferEnergy,
    RepairStructure,
    UpgradeController,
    MoveToTarget,
}

/// First decision of a tick's execution: give the job up, or issue a
/// command.
#[derive(Clone, Copy, PartialEq, Eq, Structural, Debug)]
pub enum Step {
    Release,
    Act(CreepAction),
}

/// Decision after the primary command's status came back.
#[derive(Clone, Copy, PartialEq, Eq, Structural, Debug)]
pub enum AfterAction {
    Hold,
    Release,
    MoveCloser,
    Fail(Error),
}

/// Decision after a move-closer command's status came back.
#[derive(Clone, Copy, PartialEq, Eq, Structural, Debug)]
pub enum MoveOutcome {
    Hold,
    Release,
    Fail(Error),
}

/// One tick's snapshot of a live worker, as the driver reads it from the
/// world. A missing lifetime estimate is reported as zero.
#[derive(Clone, Debug)]
pub struct CreepInfo {
    /// Stable unit name, the key its persistent state is held under.
    pub name: String,
    pub pos: Position,
    /// Total energy capacity of the worker's store.
    pub energy_capacity: u32,
    /// Free energy capacity of the store.
    pub energy_free: u32,
    /// Energy currently carried.
    pub energy_stored: u32,
    /// Estimated ticks until the worker expires.
    pub ticks_to_live: u32,
}

/// A worker unit: the latest snapshot plus the one piece of state that
/// survives across ticks, its current job. A worker holds at most one job
/// at a time, by construction of this field.
#[derive(Debug)]
pub struct Creep {
    pub name: String,
    pub pos: Position,
    pub energy_capacity: u32,
    pub energy_free: u32,
    pub energy_stored: u32,
    pub ticks_to_live: u32,
    pub current_job: Option<Job>,
}

/// Attack and heal work is reserved for towers; a worker executes only
/// the five other categories.
pub open spec fn spec_worker_job(job: Job) -> bool {
    !(job is Attack) && !(job is Heal)
}

/// The re-resolved target state a worker execution contract expects for
/// each job category.
pub open spec fn target_matches(job: Job, t: TargetState) -> bool {
    match job {
        Job::Build(_) => t is Gone || t is Site,
        Job::Harvest(_) => t is Gone || t is SourceFound,
        Job::Maintain(_) => t is Gone || t is Store,
        Job::Repair(_) => t is Gone || t is Damageable,
        Job::Upgrade(_) => t is Gone || t is ControllerFound,
        Job::Attack(_) => false,
        Job::Heal(_) => false,
    }
}

/// The command a worker's execution of `job` may ask the driver to issue.
pub open spec fn action_matches(job: Job, a: CreepAction) -> bool {
    match job {
        Job::Build(_) => a is BuildSite,
        Job::Harvest(_) => a is HarvestSource,
        Job::Maintain(_) => a is TransferEnergy || a is MoveToTarget,
        Job::Repair(_) => a is RepairStructure,
        Job::Upgrade(_) => a is UpgradeController,
        Job::Attack(_) => false,
        Job::Heal(_) => false,
    }
}

/// The first decision of executing `job`: release when the job can no
/// longer be worked (target gone, no energy to spend, store to fill full,
/// site finished, structure already whole, nothing left to harvest into);
/// otherwise the command to issue. A maintain target out of arm's reach
/// is approached first.
pub open spec fn spec_plan_job(c: Creep, job: Job, target: TargetState) -> Step {
    match job {
        Job::Build(_) => if c.energy_stored == 0 {
            Step::Release
        } else {
            match target {
                TargetState::Site { progress, progress_total } => if progress == progress_total {
                    Step::Release
                } else {
                    Step::Act(CreepAction::BuildSite)
                },
                _ => Step::Release,
            }
        },
        Job::Harvest(_) => if c.energy_free == 0 {
            Step::Release
        } else {
            match target {
                TargetState::SourceFound => Step::Act(CreepAction::HarvestSource),
                _ => Step::Release,
            }
        },
        Job::Maintain(_) => if c.energy_stored == 0 {
            Step::Release
        } else {
            match target {
                TargetState::Store { pos, free_energy } => if free_energy == 0 {
                    Step::Release
                } else if range_between(c.pos, pos) <= 1 {
                    Step::Act(CreepAction::TransferEnergy)
                } else {
                    Step::Act(CreepAction::MoveToTarget)
                },
                _ => Step::Release,
            }
        },
        Job::Repair(_) => if c.energy_stored == 0 {
            Step::Release
        } else {
            match target {
                TargetState::Damageable { hits, hits_max } => if hits == hits_max {
                    Step::Release
                } else {
                    Step::Act(CreepAction::RepairStructure)
                },
                _ => Step::Release,
            }
        },
        Job::Upgrade(_) => if c.energy_stored == 0 {
            Step::Release
        } else {
            match target {
                TargetState::ControllerFound => Step::Act(CreepAction::UpgradeController),
                _ => Step::Release,
            }
        },
        _ => Step::Release,
    }
}

/// The decision after the primary command's status came back. A
/// not-enough-resource status is always a release signal, never an error;
/// out of range asks for a move closer; any unrecognized status is the
/// typed error of the failing action. The result of a plain approach move
/// toward a maintain target is ignored: the worker holds on and retries.
pub open spec fn spec_after_action(job: Job, a: CreepAction, code: WorldCode) -> AfterAction {
    if a is MoveToTarget {
        AfterAction::Hold
    } else {
        match code {
            WorldCode::Success => if job is Maintain {
                AfterAction::Release
            } else {
                AfterAction::Hold
            },
            WorldCode::NotInRange => AfterAction::MoveCloser,
            WorldCode::NotEnough => AfterAction::Release,
            _ => AfterAction::Fail(spec_error_for(job, code)),
        }
    }
}

/// The typed error naming the action that failed with `code`.
pub open spec fn spec_error_for(job: Job, code: WorldCode) -> Error {
    match job {
        Job::Build(_) => Error::Build(code),
        Job::Harvest(_) => Error::Harvest(code),
        Job::Maintain(_) => Error::Maintain(code),
        Job::Repair(_) => Error::Repair(code),
        Job::Upgrade(_) => Error::Upgrade(code),
        _ => Error::Move(code),
    }
}

/// The decision after a move-closer command's status came back: a no-path
/// result releases jobs that are pointless without reaching the target
/// (harvest, maintain) and is tolerated for the rest; an unrecognized
/// status is a move error.
pub open spec fn spec_after_move(job: Job, code: WorldCode) -> MoveOutcome {
    match code {
        WorldCode::Success => MoveOutcome::Hold,
        WorldCode::Tired => MoveOutcome::Hold,
        WorldCode::NoPath => if job is Harvest || job is Maintain {
            MoveOutcome::Release
        } else {
            MoveOutcome::Hold
        },
        _ => MoveOutcome::Fail(Error::Move(code)),
    }
}

impl Creep {
    /// The offers this worker may take this tick.
    pub open spec fn spec_eligibility(self) -> spec_fn(JobOffer) -> bool {
        |o: JobOffer|
            worker_eligible(
                self.energy_capacity,
                self.energy_free,
                self.energy_stored,
                self.ticks_to_live,
                o,
            )
    }

    /// A fresh worker unit holding no job.
    pub fn from_creep(info: CreepInfo) -> (r: Self)
        ensures
            r.name@ == info.name@,
            r.pos == info.pos,
            r.energy_capacity == info.energy_capacity,
            r.energy_free == info.energy_free,
            r.energy_stored == info.energy_stored,
            r.ticks_to_live == info.ticks_to_live,
            r.current_job is None,
    {
        Self {
            name: info.name,
            pos: info.pos,
            energy_capacity: info.energy_capacity,
            energy_free: info.energy_free,
            energy_stored: info.energy_stored,
            ticks_to_live: info.ticks_to_live,
            current_job: None,
        }
    }

    /// The worker's stable name.
    pub fn get_name(&self) -> (r: String)
        ensures
            r@ == self.name@,
    {
        self.name.clone()
    }

    /// Replace the snapshot with this tick's readings; the current job
    /// survives.
    pub fn set_creep(&mut self, info: CreepInfo)
        ensures
            final(self).name@ == info.name@,
            final(self).pos == info.pos,
            final(self).energy_capacity == info.energy_capacity,
            final(self).energy_free == info.energy_free,
            final(self).energy_stored == info.energy_stored,
            final(self).ticks_to_live == info.ticks_to_live,
            final(self).current_job == old(self).current_job,
    {
        self.name = info.name;
        self.pos = info.pos;
        self.energy_capacity = info.energy_capacity;
        self.energy_free = info.energy_free;
        self.energy_stored = info.energy_stored;
        self.ticks_to_live = info.ticks_to_live;
    }

    /// The job this worker works this tick: the held one if any, else the
    /// eligible offer of minimal priority-times-range score (claiming one
    /// of its places), else none. See [`worker_select_post`].
    pub fn select_job(&self, jobs: &mut Vec<JobOffer>) -> (r: Option<Job>)
        ensures
            worker_select_post(*self, old(jobs)@, final(jobs)@, r),
    {
        match &self.current_job {
            Some(j) => Some(*j),
            None => {
                let mut best: Option<usize> = None;
                let mut k: usize = 0;
                while k < jobs.len()
                    invariant
                        k <= jobs@.len(),
                        jobs@ == old(jobs)@,
                        best matches Some(b) ==> {
                            &&& b < k
                            &&& self.spec_eligibility()(jobs@[b as int])
                            &&& forall|j: int|
                                0 <= j < k && #[trigger] self.spec_eligibility()(jobs@[j])
                                    ==> crate::policy::spec_score(jobs@[b as int].job, self.pos)
                                    <= crate::policy::spec_score(jobs@[j].job, self.pos)
                            &&& forall|j: int|
                                b < j < k && #[trigger] self.spec_eligibility()(jobs@[j])
                                    ==> crate::policy::spec_score(jobs@[b as int].job, self.pos)
                                    < crate::policy::spec_score(jobs@[j].job, self.pos)
                        },
                        best is None ==> forall|j: int|
                            0 <= j < k ==> !(#[trigger] self.spec_eligibility()(jobs@[j])),
                    decreases jobs@.len() - k,
                {
                    let eligible = worker_offer_eligible(
                        self.energy_capacity,
                        self.energy_free,
                        self.energy_stored,
                        self.ticks_to_live,
                        &jobs[k],
                    );
                    if eligible {
                        best = match best {
                            None => Some(k),
                            Some(b) => {
                                if score(&jobs[k].job, self.pos) <= score(&jobs[b].job, self.pos) {
                                    Some(k)
                                } else {
                                    Some(b)
                                }
                            },
                        };
                    }
                    k = k + 1;
                }
                match best {
                    None => None,
                    Some(b) => {
                        proof {
                            assert(is_pick(jobs@, self.spec_eligibility(), self.pos, b as int));
                            assert forall|i: int|
                                #[trigger] is_pick(jobs@, self.spec_eligibility(), self.pos, i)
                                    implies i == b as int by {
                                crate::policy::lemma_pick_deterministic(
                                    jobs@,
                                    self.spec_eligibility(),
                                    self.pos,
                                    i,
                                    b as int,
                                );
                            }
                        }
                        let job = jobs[b].job;
                        claim_offer(jobs, b, self.energy_stored);
                        Some(job)
                    },
                }
            },
        }
    }

    /// Record how this tick's execution left the worker: keep the job if
    /// it is still worth holding, else become idle. The worker's job slot
    /// is empty immediately after any release.
    pub fn apply_execution(&mut self, job: Job, held: bool)
        ensures
            held ==> final(self).current_job == Some(job),
            !held ==> final(self).current_job is None,
            final(self).name@ == old(self).name@,
            final(self).pos == old(self).pos,
            final(self).energy_capacity == old(self).energy_capacity,
            final(self).energy_free == old(self).energy_free,
            final(self).energy_stored == old(self).energy_stored,
            final(self).ticks_to_live == old(self).ticks_to_live,
    {
        self.current_job = if held {
            Some(job)
        } else {
            None
        };
    }

    /// First decision of executing `job` against the re-resolved `target`;
    /// see [`spec_plan_job`].
    pub fn plan_job(&self, job: &Job, target: &TargetState) -> (s: Step)
        requires
            spec_worker_job(*job),
            target_matches(*job, *target),
        ensures
            s == spec_plan_job(*self, *job, *target),
            s matches Step::Act(a) ==> action_matches(*job, a),
            *target is Gone ==> s is Release,
            !(*job is Harvest) && self.energy_stored == 0 ==> s is Release,
            *job is Harvest && self.energy_free == 0 ==> s is Release,
    {
        match job {
            Job::Build(_) => {
                if self.energy_stored == 0 {
                    Step::Release
                } else {
                    match target {
                        TargetState::Site { progress, progress_total } => {
                            if progress == progress_total {
                                Step::Release
                            } else {
                                Step::Act(CreepAction::BuildSite)
                            }
                        },
                        _ => Step::Release,
                    }
                }
            },
            Job::Harvest(_) => {
                if self.energy_free == 0 {
                    Step::Release
                } else {
                    match target {
                        TargetState::SourceFound => Step::Act(CreepAction::HarvestSource),
                        _ => Step::Release,
                    }
                }
            },
            Job::Maintain(_) => {
                if self.energy_stored == 0 {
                    Step::Release
                } else {
                    match target {
                        TargetState::Store { pos, free_energy } => {
                            if *free_energy == 0 {
                                Step::Release
                            } else if self.pos.range_to(*pos) <= 1 {
                                Step::Act(CreepAction::TransferEnergy)
                            } else {
                                Step::Act(CreepAction::MoveToTarget)
                            }
                        },
                        _ => Step::Release,
                    }
                }
            },
            Job::Repair(_) => {
                if self.energy_stored == 0 {
                    Step::Release
                } else {
                    match target {
                        TargetState::Damageable { hits, hits_max } => {
                            if hits == hits_max {
                                Step::Release
                            } else {
                                Step::Act(CreepAction::RepairStructure)
                            }
                        },
                        _ => Step::Release,
                    }
                }
            },
            Job::Upgrade(_) => {
                if self.energy_stored == 0 {
                    Step::Release
                } else {
                    match target {
                        TargetState::ControllerFound => Step::Act(CreepAction::UpgradeController),
                        _ => Step::Release,
                    }
                }
            },
            _ => Step::Release,
        }
    }

    /// Decision after the primary command's status `code` came back; see
    /// [`spec_after_action`].
    pub fn after_action(&self, job: &Job, action: CreepAction, code: WorldCode) -> (r: AfterAction)
        requires
            spec_worker_job(*job),
            action_matches(*job, action),
        ensures
            r == spec_after_action(*job, action, code),
            code is NotEnough && !(action is MoveToTarget) ==> r is Release,
    {
        match action {
            CreepAction::MoveToTarget => AfterAction::Hold,
            _ => {
                match code {
                    WorldCode::Success => {
                        if matches!(job, Job::Maintain(_)) {
                            AfterAction::Release
                        } else {
                            AfterAction::Hold
                        }
                    },
                    WorldCode::NotInRange => AfterAction::MoveCloser,
                    WorldCode::NotEnough => AfterAction::Release,
                    _ => {
                        AfterAction::Fail(
                            match job {
                                Job::Build(_) => Error::Build(code),
                                Job::Harvest(_) => Error::Harvest(code),
                                Job::Maintain(_) => Error::Maintain(code),
                                Job::Repair(_) => Error::Repair(code),
                                Job::Upgrade(_) => Error::Upgrade(code),
                                _ => Error::Move(code),
                            },
                        )
                    },
                }
            },
        }
    }

    /// Decision after a move-closer command's status `code` came back; see
    /// [`spec_after_move`].
    pub fn after_move(&self, job: &Job, code: WorldCode) -> (r: MoveOutcome)
        requires
            spec_worker_job(*job),
        ensures
            r == spec_after_move(*job, code),
    {
        match code {
            WorldCode::Success => MoveOutcome::Hold,
            WorldCode::Tired => MoveOutcome::Hold,
            WorldCode::NoPath => {
                if matches!(job, Job::Harvest(_)) || matches!(job, Job::Maintain(_)) {
                    MoveOutcome::Release
                } else {
                    MoveOutcome::Hold
                }
            },
            _ => MoveOutcome::Fail(Error::Move(code)),
        }
    }
}

/// What holds of the pool and result after a worker ran its selection:
/// the pool only ever shrinks (never below zero, counters being
/// unsigned); a held job is kept and the pool untouched; an idle worker
/// gets exactly the deterministic pick, whose place is claimed, or
/// nothing when no offer is eligible; an empty worker wins only harvest
/// offers and a full one never wins harvest.
pub open spec fn worker_select_post(
    c: Creep,
    before: Seq<JobOffer>,
    after: Seq<JobOffer>,
    r: Option<Job>,
) -> bool {
    &&& pool_only_consumed(before, after)
    &&& (c.current_job matches Some(j) ==> r == Some(j) && after == before)
    &&& (c.current_job is None ==> {
        &&& (r is Some <==> exists|i: int| is_pick(before, c.spec_eligibility(), c.pos, i))
        &&& (forall|i: int|
            #[trigger] is_pick(before, c.spec_eligibility(), c.pos, i) ==> r == Some(before[i].job)
                && after == pool_after_claim(before, i, c.energy_stored))
        &&& (r is None ==> after == before)
    })
    &&& (c.current_job is None && c.energy_stored == 0 ==> (r matches Some(j) ==> j is Harvest))
    &&& (c.current_job is None && c.energy_free == 0 ==> (r matches Some(j) ==> !(j is Harvest)))
}

} // verus!
