//! The operator's commands: what they decide and what they say.
pub mod approver;
pub mod args;
pub mod chat;
pub mod daemon;
pub mod doctor;
pub mod dream;
pub mod gateway;
pub mod gateway_client;
pub mod init;
pub mod inspect;
pub mod laws;
pub mod listing_laws;
pub mod logs;
pub mod memory;
pub mod model;
pub mod pair;
pub mod policy;
pub mod report_laws;
pub mod service;
pub mod serving_laws;
pub mod skill;
pub mod upgrade;
pub mod wechat;
pub mod wiring;
