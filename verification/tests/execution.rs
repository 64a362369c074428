use job_market::job::Job;
use job_market::job_offer::JobOffer;
use job_market::tower::{
    Error as TowerError, Tower, TowerAction, TowerInfo, TowerOutcome, TowerStep,
};
use job_market::work::{
    AfterAction, Creep, CreepAction, CreepInfo, Error, MoveOutcome, Step,
};
use job_market::world::{Position, StructureRef, TargetRef, TargetState, WorldCode};

fn pos(x: u32, y: u32) -> Position {
    Position { x, y }
}

fn worker(stored: u32, free: u32) -> Creep {
    Creep::from_creep(CreepInfo {
        name: "w".to_string(),
        pos: pos(10, 10),
        energy_capacity: stored + free,
        energy_free: free,
        energy_stored: stored,
        ticks_to_live: 500,
    })
}

fn tower(cap: u32) -> Tower {
    Tower::from_tower(TowerInfo { id: "t1".to_string(), pos: pos(25, 25), energy_capacity: cap })
}

fn build_job() -> Job {
    Job::Build(TargetRef { id: 1, pos: pos(12, 12) })
}

fn harvest_job() -> Job {
    Job::Harvest(TargetRef { id: 2, pos: pos(12, 12) })
}

fn maintain_job() -> Job {
    Job::Maintain(StructureRef {
        id: 3,
        pos: pos(12, 12),
        hits: 100,
        hits_max: 100,
        store_free_energy: 50,
    })
}

fn repair_job() -> Job {
    Job::Repair(StructureRef {
        id: 4,
        pos: pos(12, 12),
        hits: 40,
        hits_max: 100,
        store_free_energy: 0,
    })
}

fn upgrade_job() -> Job {
    Job::Upgrade(TargetRef { id: 5, pos: pos(12, 12) })
}

#[test]
fn finished_site_releases_build_job() {
    // A held build job whose site has reached full progress is released
    // on the next execution, and the worker's job slot empties.
    let job = build_job();
    let mut w = worker(30, 20);
    w.apply_execution(job, true);
    assert_eq!(w.current_job, Some(job));
    let step = w.plan_job(&job, &TargetState::Site { progress: 500, progress_total: 500 });
    assert_eq!(step, Step::Release);
    w.apply_execution(job, false);
    assert!(w.current_job.is_none());
}

#[test]
fn build_plan_and_outcomes() {
    let job = build_job();
    let w = worker(30, 20);
    let site = TargetState::Site { progress: 10, progress_total: 500 };
    assert_eq!(w.plan_job(&job, &site), Step::Act(CreepAction::BuildSite));
    assert_eq!(worker(0, 50).plan_job(&job, &site), Step::Release);
    assert_eq!(w.plan_job(&job, &TargetState::Gone), Step::Release);
    assert_eq!(
        w.after_action(&job, CreepAction::BuildSite, WorldCode::Success),
        AfterAction::Hold
    );
    assert_eq!(
        w.after_action(&job, CreepAction::BuildSite, WorldCode::NotInRange),
        AfterAction::MoveCloser
    );
    assert_eq!(
        w.after_action(&job, CreepAction::BuildSite, WorldCode::NotEnough),
        AfterAction::Release
    );
    assert_eq!(
        w.after_action(&job, CreepAction::BuildSite, WorldCode::Other(-5)),
        AfterAction::Fail(Error::Build(WorldCode::Other(-5)))
    );
    // A builder that cannot path to the site keeps the job and retries.
    assert_eq!(w.after_move(&job, WorldCode::NoPath), MoveOutcome::Hold);
}

#[test]
fn harvest_plan_and_outcomes() {
    let job = harvest_job();
    let w = worker(10, 40);
    assert_eq!(w.plan_job(&job, &TargetState::SourceFound), Step::Act(CreepAction::HarvestSource));
    // A full store releases the harvest job at entry.
    assert_eq!(worker(50, 0).plan_job(&job, &TargetState::SourceFound), Step::Release);
    assert_eq!(w.plan_job(&job, &TargetState::Gone), Step::Release);
    assert_eq!(
        w.after_action(&job, CreepAction::HarvestSource, WorldCode::Success),
        AfterAction::Hold
    );
    // A depleted source is a release signal, not an error.
    assert_eq!(
        w.after_action(&job, CreepAction::HarvestSource, WorldCode::NotEnough),
        AfterAction::Release
    );
    assert_eq!(
        w.after_action(&job, CreepAction::HarvestSource, WorldCode::Other(-9)),
        AfterAction::Fail(Error::Harvest(WorldCode::Other(-9)))
    );
    // An unreachable source is abandoned.
    assert_eq!(w.after_move(&job, WorldCode::NoPath), MoveOutcome::Release);
    assert_eq!(w.after_move(&job, WorldCode::Tired), MoveOutcome::Hold);
    assert_eq!(
        w.after_move(&job, WorldCode::Other(-3)),
        MoveOutcome::Fail(Error::Move(WorldCode::Other(-3)))
    );
}

#[test]
fn maintain_plan_and_outcomes() {
    let job = maintain_job();
    let w = worker(30, 20); // worker stands at (10, 10)
    let near = TargetState::Store { pos: pos(11, 11), free_energy: 40 };
    let far = TargetState::Store { pos: pos(20, 20), free_energy: 40 };
    let full = TargetState::Store { pos: pos(11, 11), free_energy: 0 };
    assert_eq!(w.plan_job(&job, &near), Step::Act(CreepAction::TransferEnergy));
    assert_eq!(w.plan_job(&job, &far), Step::Act(CreepAction::MoveToTarget));
    assert_eq!(w.plan_job(&job, &full), Step::Release);
    assert_eq!(worker(0, 50).plan_job(&job, &near), Step::Release);
    assert_eq!(w.plan_job(&job, &TargetState::Gone), Step::Release);
    // A completed transfer ends the job.
    assert_eq!(
        w.after_action(&job, CreepAction::TransferEnergy, WorldCode::Success),
        AfterAction::Release
    );
    assert_eq!(
        w.after_action(&job, CreepAction::TransferEnergy, WorldCode::NotInRange),
        AfterAction::MoveCloser
    );
    assert_eq!(
        w.after_action(&job, CreepAction::TransferEnergy, WorldCode::Other(-7)),
        AfterAction::Fail(Error::Maintain(WorldCode::Other(-7)))
    );
    // The result of a plain approach move is ignored: hold and retry.
    assert_eq!(
        w.after_action(&job, CreepAction::MoveToTarget, WorldCode::Other(-7)),
        AfterAction::Hold
    );
    assert_eq!(w.after_move(&job, WorldCode::NoPath), MoveOutcome::Release);
}

#[test]
fn repair_plan_and_outcomes() {
    let job = repair_job();
    let w = worker(30, 20);
    let damaged = TargetState::Damageable { hits: 40, hits_max: 100 };
    let whole = TargetState::Damageable { hits: 100, hits_max: 100 };
    assert_eq!(w.plan_job(&job, &damaged), Step::Act(CreepAction::RepairStructure));
    assert_eq!(w.plan_job(&job, &whole), Step::Release);
    assert_eq!(worker(0, 50).plan_job(&job, &damaged), Step::Release);
    assert_eq!(
        w.after_action(&job, CreepAction::RepairStructure, WorldCode::Success),
        AfterAction::Hold
    );
    assert_eq!(
        w.after_action(&job, CreepAction::RepairStructure, WorldCode::Other(-1)),
        AfterAction::Fail(Error::Repair(WorldCode::Other(-1)))
    );
    assert_eq!(w.after_move(&job, WorldCode::NoPath), MoveOutcome::Hold);
}

#[test]
fn upgrade_plan_and_outcomes() {
    let job = upgrade_job();
    let w = worker(30, 20);
    assert_eq!(
        w.plan_job(&job, &TargetState::ControllerFound),
        Step::Act(CreepAction::UpgradeController)
    );
    assert_eq!(worker(0, 50).plan_job(&job, &TargetState::ControllerFound), Step::Release);
    assert_eq!(w.plan_job(&job, &TargetState::Gone), Step::Release);
    assert_eq!(
        w.after_action(&job, CreepAction::UpgradeController, WorldCode::Success),
        AfterAction::Hold
    );
    // Running out of energy mid-upgrade is a release, not an error.
    assert_eq!(
        w.after_action(&job, CreepAction::UpgradeController, WorldCode::NotEnough),
        AfterAction::Release
    );
    assert_eq!(
        w.after_action(&job, CreepAction::UpgradeController, WorldCode::Other(-11)),
        AfterAction::Fail(Error::Upgrade(WorldCode::Other(-11)))
    );
}

#[test]
fn tower_attack_execution() {
    let t = tower(1000);
    let job = Job::Attack(TargetRef { id: 8, pos: pos(30, 30) });
    assert_eq!(t.plan_job(&job, &TargetState::UnitFound), TowerStep::Act(TowerAction::AttackUnit));
    assert_eq!(t.plan_job(&job, &TargetState::Gone), TowerStep::Release);
    // A landed shot holds while the enemy still stands and releases once
    // its re-read health is zero.
    assert_eq!(t.after_action(&job, WorldCode::Success, 500), TowerOutcome::Hold);
    assert_eq!(t.after_action(&job, WorldCode::Success, 0), TowerOutcome::Release);
    assert_eq!(t.after_action(&job, WorldCode::NotEnough, 500), TowerOutcome::Release);
    assert_eq!(
        t.after_action(&job, WorldCode::Other(-4), 500),
        TowerOutcome::Fail(TowerError::Attack(WorldCode::Other(-4)))
    );
}

#[test]
fn tower_repair_execution() {
    let t = tower(1000); // repair limit: 4000 hits
    let job = Job::Repair(StructureRef {
        id: 9,
        pos: pos(30, 30),
        hits: 100,
        hits_max: 5000,
        store_free_energy: 0,
    });
    let damaged = TargetState::Damageable { hits: 100, hits_max: 5000 };
    let whole = TargetState::Damageable { hits: 5000, hits_max: 5000 };
    let durable = TargetState::Damageable { hits: 4001, hits_max: 5000 };
    let at_limit = TargetState::Damageable { hits: 4000, hits_max: 5000 };
    assert_eq!(t.plan_job(&job, &damaged), TowerStep::Act(TowerAction::RepairStructure));
    assert_eq!(t.plan_job(&job, &whole), TowerStep::Release);
    assert_eq!(t.plan_job(&job, &durable), TowerStep::Release);
    assert_eq!(t.plan_job(&job, &at_limit), TowerStep::Act(TowerAction::RepairStructure));
    assert_eq!(t.plan_job(&job, &TargetState::Gone), TowerStep::Release);
    assert_eq!(t.after_action(&job, WorldCode::Success, 0), TowerOutcome::Hold);
    assert_eq!(t.after_action(&job, WorldCode::NotEnough, 0), TowerOutcome::Release);
    assert_eq!(
        t.after_action(&job, WorldCode::Other(-6), 0),
        TowerOutcome::Fail(TowerError::Repair(WorldCode::Other(-6)))
    );
}

#[test]
fn tower_selects_only_attack_and_repair() {
    let t = tower(1000);
    let mut jobs = vec![
        JobOffer::new(Job::Harvest(TargetRef { id: 1, pos: pos(26, 25) }), 5),
        JobOffer::new(Job::Build(TargetRef { id: 2, pos: pos(26, 26) }), 5),
        JobOffer::new(Job::Heal(TargetRef { id: 3, pos: pos(27, 27) }), 1),
    ];
    assert!(t.select_job(&mut jobs).is_none());

    let attack = Job::Attack(TargetRef { id: 4, pos: pos(40, 40) });
    jobs.push(JobOffer::new(attack, 5));
    assert_eq!(t.select_job(&mut jobs), Some(attack));
    assert_eq!(jobs[3].available_places, 4);
}

#[test]
fn tower_repair_eligibility_cutoff() {
    let t = tower(1000); // cutoff: 4000 hits
    let at_cutoff = Job::Repair(StructureRef {
        id: 1,
        pos: pos(26, 25),
        hits: 4000,
        hits_max: 5000,
        store_free_energy: 0,
    });
    let below = Job::Repair(StructureRef {
        id: 2,
        pos: pos(40, 40),
        hits: 3999,
        hits_max: 5000,
        store_free_energy: 0,
    });
    let mut jobs = vec![JobOffer::new(at_cutoff, 1), JobOffer::new(below, 1)];
    assert_eq!(t.select_job(&mut jobs), Some(below));
    assert_eq!(jobs[0].available_places, 1);
    assert_eq!(jobs[1].available_places, 0);
}

#[test]
fn tower_release_clears_current_job() {
    let mut t = tower(1000);
    let job = Job::Attack(TargetRef { id: 4, pos: pos(40, 40) });
    t.apply_execution(job, true);
    assert_eq!(t.current_job, Some(job));
    t.apply_execution(job, false);
    assert!(t.current_job.is_none());
}
