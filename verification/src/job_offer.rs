//! A job plus how many more units may still be assigned to it this cycle.
use vstd::prelude::*;
use crate::job::Job;

verus! {

/// One entry of the shared per-tick pool. `available_places` only ever
/// decreases between scans; an offer with zero places is not assignable.
#[derive(Clone, Copy, PartialEq, Eq, Structural, Debug)]
pub struct JobOffer {
    pub available_places: u32,
    pub job: Job,
}

impl JobOffer {
    pub fn new(job: Job, available_places: u32) -> (r: Self)
        ensures
            r.job == job,
            r.available_places == available_places,
    {
        Self { job, available_places }
    }
}

} // verus!
