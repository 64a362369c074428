//! Job-market scheduler for a tick-based world of worker units and towers.
//!
//! A room's `Regulator` scans the world for work (a pool of `JobOffer`s with
//! bounded capacity), and each tick every unit either keeps executing its
//! current job or greedily picks the cheapest eligible offer from the shared
//! pool. All world queries and commands are handed in and out as plain
//! values: the scheduler itself is pure decision logic.
pub mod constants;
pub mod util;
pub mod world;
pub mod job;
pub mod job_offer;
pub mod policy;
pub mod work;
pub mod tower;
pub mod regulator;

