use job_market::constants::{
    PRIORITY_ATTACK, PRIORITY_BUILDING, PRIORITY_HARVESTING, PRIORITY_HEALING,
    PRIORITY_MAINTAINING, PRIORITY_REPAIRING, PRIORITY_UPGRADING,
};
use job_market::job::Job;
use job_market::job_offer::JobOffer;
use job_market::regulator::{Error as RegulatorError, Regulator};
use job_market::tower::{Error as TowerError, TowerInfo};
use job_market::util::NumHelper;
use job_market::work::{CreepInfo, Error as WorkError};
use job_market::world::{Position, StructureRef, TargetRef, WorldCode};

fn pos(x: u32, y: u32) -> Position {
    Position { x, y }
}

fn creep_info(name: &str, p: Position, stored: u32) -> CreepInfo {
    CreepInfo {
        name: name.to_string(),
        pos: p,
        energy_capacity: 50,
        energy_free: 50 - stored,
        energy_stored: stored,
        ticks_to_live: 500,
    }
}

fn tower_info(id: &str, p: Position) -> TowerInfo {
    TowerInfo { id: id.to_string(), pos: p, energy_capacity: 1000 }
}

#[test]
fn priorities_order_the_categories() {
    let p = pos(0, 0);
    assert_eq!(Job::Attack(TargetRef { id: 1, pos: p }).priority(), PRIORITY_ATTACK);
    assert_eq!(Job::Heal(TargetRef { id: 1, pos: p }).priority(), PRIORITY_HEALING);
    let s = StructureRef { id: 1, pos: p, hits: 1, hits_max: 2, store_free_energy: 3 };
    assert_eq!(Job::Repair(s).priority(), PRIORITY_REPAIRING);
    assert_eq!(Job::Maintain(s).priority(), PRIORITY_MAINTAINING);
    assert_eq!(Job::Build(TargetRef { id: 1, pos: p }).priority(), PRIORITY_BUILDING);
    assert_eq!(Job::Upgrade(TargetRef { id: 1, pos: p }).priority(), PRIORITY_UPGRADING);
    assert_eq!(Job::Harvest(TargetRef { id: 1, pos: p }).priority(), PRIORITY_HARVESTING);
    assert_eq!(PRIORITY_ATTACK, 0);
    assert_eq!(PRIORITY_HARVESTING, 6);
}

#[test]
fn job_type_names() {
    let p = pos(0, 0);
    let s = StructureRef { id: 1, pos: p, hits: 1, hits_max: 2, store_free_energy: 3 };
    assert_eq!(Job::Attack(TargetRef { id: 1, pos: p }).get_type(), "attack");
    assert_eq!(Job::Build(TargetRef { id: 1, pos: p }).get_type(), "build");
    assert_eq!(Job::Harvest(TargetRef { id: 1, pos: p }).get_type(), "harvest");
    assert_eq!(Job::Heal(TargetRef { id: 1, pos: p }).get_type(), "heal");
    assert_eq!(Job::Maintain(s).get_type(), "maintain");
    assert_eq!(Job::Repair(s).get_type(), "repair");
    assert_eq!(Job::Upgrade(TargetRef { id: 1, pos: p }).get_type(), "upgrade");
}

#[test]
fn range_is_king_move_distance() {
    let job = Job::Build(TargetRef { id: 1, pos: pos(10, 14) });
    assert_eq!(job.get_range_to(pos(10, 14)), 0);
    assert_eq!(job.get_range_to(pos(13, 14)), 3);
    assert_eq!(job.get_range_to(pos(13, 12)), 3);
    assert_eq!(job.get_range_to(pos(11, 20)), 6);
    assert_eq!(job.get_range_to(pos(49, 0)), 39);
}

#[test]
fn job_accessors_return_their_target() {
    let t = TargetRef { id: 11, pos: pos(1, 2) };
    let s = StructureRef { id: 12, pos: pos(3, 4), hits: 5, hits_max: 6, store_free_energy: 7 };
    assert_eq!(Job::Build(t).get_construction_site(), t);
    assert_eq!(Job::Attack(t).get_creep(), t);
    assert_eq!(Job::Heal(t).get_creep(), t);
    assert_eq!(Job::Harvest(t).get_source(), t);
    assert_eq!(Job::Maintain(s).get_structure(), s);
    assert_eq!(Job::Repair(s).get_structure(), s);
    assert_eq!(Job::Upgrade(t).get_structure_controller(), t);
}

#[test]
fn job_offer_new_stores_its_arguments() {
    let job = Job::Harvest(TargetRef { id: 1, pos: pos(2, 3) });
    let offer = JobOffer::new(job, 4);
    assert_eq!(offer.job, job);
    assert_eq!(offer.available_places, 4);
}

#[test]
fn limit_helpers_clamp() {
    assert_eq!(7u32.limit_max(5), 5);
    assert_eq!(3u32.limit_max(5), 3);
    assert_eq!(5u32.limit_max(5), 5);
    assert_eq!(2u32.limit_min(4), 4);
    assert_eq!(6u32.limit_min(4), 6);
    assert_eq!(4u32.limit_min(4), 4);
}

#[test]
fn regulator_registers_units_idle() {
    let creeps = vec![creep_info("a", pos(1, 1), 0), creep_info("b", pos(2, 2), 10)];
    let towers = vec![tower_info("t1", pos(3, 3))];
    let reg = Regulator::new("W1N1".to_string(), &creeps, &towers);
    assert_eq!(reg.creeps.len(), 2);
    assert_eq!(reg.towers.len(), 1);
    assert_eq!(reg.jobs.len(), 0);
    assert_eq!(reg.creeps[0].get_name(), "a");
    assert_eq!(reg.towers[0].get_id(), "t1");
    assert!(reg.creeps[0].current_job.is_none());
    assert!(reg.towers[0].current_job.is_none());
}

#[test]
fn sync_creep_updates_known_and_appends_unknown() {
    let creeps = vec![creep_info("a", pos(1, 1), 0)];
    let mut reg = Regulator::new("W1N1".to_string(), &creeps, &vec![]);
    // Give the known worker a job, then sync a fresh reading: the job
    // survives, the snapshot is replaced.
    let job = Job::Upgrade(TargetRef { id: 1, pos: pos(9, 9) });
    reg.creep_apply(0, job, true);
    let i = reg.sync_creep(creep_info("a", pos(5, 5), 20));
    assert_eq!(i, 0);
    assert_eq!(reg.creeps[0].pos, pos(5, 5));
    assert_eq!(reg.creeps[0].energy_stored, 20);
    assert_eq!(reg.creeps[0].current_job, Some(job));
    // An unknown name is appended as a fresh idle worker.
    let j = reg.sync_creep(creep_info("b", pos(6, 6), 0));
    assert_eq!(j, 1);
    assert_eq!(reg.creeps.len(), 2);
    assert!(reg.creeps[1].current_job.is_none());
}

#[test]
fn sync_tower_updates_known_and_appends_unknown() {
    let towers = vec![tower_info("t1", pos(3, 3))];
    let mut reg = Regulator::new("W1N1".to_string(), &vec![], &towers);
    let job = Job::Attack(TargetRef { id: 1, pos: pos(9, 9) });
    reg.tower_apply(0, job, true);
    let i = reg.sync_tower(tower_info("t1", pos(3, 3)));
    assert_eq!(i, 0);
    assert_eq!(reg.towers[0].current_job, Some(job));
    let j = reg.sync_tower(tower_info("t2", pos(7, 7)));
    assert_eq!(j, 1);
    assert_eq!(reg.towers.len(), 2);
}

#[test]
fn dead_units_are_pruned() {
    let creeps = vec![
        creep_info("a", pos(1, 1), 0),
        creep_info("b", pos(2, 2), 0),
        creep_info("c", pos(3, 3), 0),
    ];
    let towers = vec![tower_info("t1", pos(4, 4)), tower_info("t2", pos(5, 5))];
    let mut reg = Regulator::new("W1N1".to_string(), &creeps, &towers);
    reg.remove_dead_creeps(&vec!["a".to_string(), "c".to_string()]);
    assert_eq!(reg.creeps.len(), 2);
    assert_eq!(reg.creeps[0].get_name(), "a");
    assert_eq!(reg.creeps[1].get_name(), "c");
    reg.remove_dead_towers(&vec!["t2".to_string()]);
    assert_eq!(reg.towers.len(), 1);
    assert_eq!(reg.towers[0].get_id(), "t2");
}

#[test]
fn regulator_drives_selection_against_shared_pool() {
    // Two idle workers served in turn from a single-place offer: the
    // first claims it, the second finds nothing.
    let creeps = vec![creep_info("a", pos(1, 1), 10), creep_info("b", pos(2, 2), 10)];
    let mut reg = Regulator::new("W1N1".to_string(), &creeps, &vec![]);
    let build = Job::Build(TargetRef { id: 1, pos: pos(5, 5) });
    reg.jobs.push(JobOffer::new(build, 1));
    let r1 = reg.creep_select(0);
    assert_eq!(r1, Some(build));
    reg.creep_apply(0, build, true);
    let r2 = reg.creep_select(1);
    assert!(r2.is_none());
    assert_eq!(reg.creeps[0].current_job, Some(build));
    assert!(reg.creeps[1].current_job.is_none());
}

#[test]
fn set_room_renames_only_the_room() {
    let mut reg = Regulator::new("W1N1".to_string(), &vec![], &vec![]);
    reg.set_room("W2N2".to_string());
    assert_eq!(reg.room, "W2N2");
    assert_eq!(reg.creeps.len(), 0);
}

#[test]
fn error_values_carry_their_codes() {
    let w = WorkError::Harvest(WorldCode::Other(-12));
    assert_eq!(w, WorkError::Harvest(WorldCode::Other(-12)));
    assert_ne!(w, WorkError::Harvest(WorldCode::NotEnough));
    let t = TowerError::Attack(WorldCode::Other(-1));
    let re1 = RegulatorError::Creep(w);
    let re2 = RegulatorError::Tower(t);
    assert_ne!(re1, re2);
    assert_eq!(re2, RegulatorError::Tower(TowerError::Attack(WorldCode::Other(-1))));
}
