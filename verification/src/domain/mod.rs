//! The agent's domain: what it acts on and the rules it acts by.

pub mod approval;
pub mod context;
pub mod cron;
pub mod events;
pub mod laws;
pub mod memory;
pub mod message;
pub mod pairing;
pub mod planner;
pub mod policy;
pub mod reminder;
pub mod reviewer;
pub mod run;
pub mod skill;
pub mod skill_laws;
pub mod task;
pub mod tool;
pub mod workspace;
pub mod word_laws;
