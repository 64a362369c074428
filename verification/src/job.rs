//! One classified unit of work bound to a target world entity.
use vstd::prelude::*;
use crate::constants::{
    PRIORITY_ATTACK, PRIORITY_BUILDING, PRIORITY_HARVESTING, PRIORITY_HEALING,
    PRIORITY_MAINTAINING, PRIORITY_REPAIRING, PRIORITY_UPGRADING,
};
use crate::world::{Position, StructureRef, TargetRef, range_between};

verus! {

/// A job: the closed set of work categories, each bound to one target.
/// A job is immutable once constructed; per-tick state lives in the owning
/// `JobOffer` or unit.
#[derive(Clone, Copy, PartialEq, Eq, Structural, Debug)]
pub enum Job {
    Attack(TargetRef),
    Build(TargetRef),
    Harvest(TargetRef),
    Heal(TargetRef),
    Maintain(StructureRef),
    Repair(StructureRef),
    Upgrade(TargetRef),
}

impl Job {
    /// Scheduling priority of the job's category; a lower value is served
    /// first.
    pub open spec fn spec_priority(self) -> u32 {
        match self {
            Job::Attack(_) => PRIORITY_ATTACK,
            Job::Build(_) => PRIORITY_BUILDING,
            Job::Harvest(_) => PRIORITY_HARVESTING,
            Job::Heal(_) => PRIORITY_HEALING,
            Job::Maintain(_) => PRIORITY_MAINTAINING,
            Job::Repair(_) => PRIORITY_REPAIRING,
            Job::Upgrade(_) => PRIORITY_UPGRADING,
        }
    }

    pub fn priority(&self) -> (r: u32)
        ensures
            r == self.spec_priority(),
    {
        match self {
            Job::Attack(_) => PRIORITY_ATTACK,
            Job::Build(_) => PRIORITY_BUILDING,
            Job::Harvest(_) => PRIORITY_HARVESTING,
            Job::Heal(_) => PRIORITY_HEALING,
            Job::Maintain(_) => PRIORITY_MAINTAINING,
            Job::Repair(_) => PRIORITY_REPAIRING,
            Job::Upgrade(_) => PRIORITY_UPGRADING,
        }
    }

    /// Where the job's target stands.
    pub open spec fn spec_target_pos(self) -> Position {
        match self {
            Job::Attack(t) => t.pos,
            Job::Build(t) => t.pos,
            Job::Harvest(t) => t.pos,
            Job::Heal(t) => t.pos,
            Job::Maintain(t) => t.pos,
            Job::Repair(t) => t.pos,
            Job::Upgrade(t) => t.pos,
        }
    }

    /// Interaction range from `pos` to the job's target.
    pub fn get_range_to(&self, pos: Position) -> (r: u32)
        ensures
            r == range_between(pos, self.spec_target_pos()),
    {
        match self {
            Job::Attack(t) => pos.range_to(t.pos),
            Job::Build(t) => pos.range_to(t.pos),
            Job::Harvest(t) => pos.range_to(t.pos),
            Job::Heal(t) => pos.range_to(t.pos),
            Job::Maintain(t) => pos.range_to(t.pos),
            Job::Repair(t) => pos.range_to(t.pos),
            Job::Upgrade(t) => pos.range_to(t.pos),
        }
    }

    /// The job's category, as a short name.
    pub fn get_type(&self) -> (r: &'static str)
        ensures
            self is Attack ==> r@ == "attack"@,
            self is Build ==> r@ == "build"@,
            self is Harvest ==> r@ == "harvest"@,
            self is Heal ==> r@ == "heal"@,
            self is Maintain ==> r@ == "maintain"@,
            self is Repair ==> r@ == "repair"@,
            self is Upgrade ==> r@ == "upgrade"@,
    {
        match self {
            Job::Attack(_) => "attack",
            Job::Build(_) => "build",
            Job::Harvest(_) => "harvest",
            Job::Heal(_) => "heal",
            Job::Maintain(_) => "maintain",
            Job::Repair(_) => "repair",
            Job::Upgrade(_) => "upgrade",
        }
    }

    /// The construction site a build job targets. Asking any other job
    /// category for a site is a contract violation, ruled out up front.
    pub fn get_construction_site(&self) -> (r: TargetRef)
        requires
            self is Build,
        ensures
            r == self->Build_0,
    {
        match self {
            Job::Build(t) => *t,
            _ => unreached(),
        }
    }

    /// The unit an attack or heal job targets.
    pub fn get_creep(&self) -> (r: TargetRef)
        requires
            self is Attack || self is Heal,
        ensures
            self is Attack ==> r == self->Attack_0,
            self is Heal ==> r == self->Heal_0,
    {
        match self {
            Job::Attack(t) => *t,
            Job::Heal(t) => *t,
            _ => unreached(),
        }
    }

    /// The energy source a harvest job targets.
    pub fn get_source(&self) -> (r: TargetRef)
        requires
            self is Harvest,
        ensures
            r == self->Harvest_0,
    {
        match self {
            Job::Harvest(t) => *t,
            _ => unreached(),
        }
    }

    /// The structure a maintain or repair job targets.
    pub fn get_structure(&self) -> (r: StructureRef)
        requires
            self is Maintain || self is Repair,
        ensures
            self is Maintain ==> r == self->Maintain_0,
            self is Repair ==> r == self->Repair_0,
    {
        match self {
            Job::Maintain(t) => *t,
            Job::Repair(t) => *t,
            _ => unreached(),
        }
    }

    /// The controller an upgrade job targets.
    pub fn get_structure_controller(&self) -> (r: TargetRef)
        requires
            self is Upgrade,
        ensures
            r == self->Upgrade_0,
    {
        match self {
            Job::Upgrade(t) => *t,
            _ => unreached(),
        }
    }
}

} // verus!
