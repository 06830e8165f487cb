//! Decision logic of a personal agent: permission policy, memory governance,
//! scheduling, configuration resolution and the texts shown to operators.

pub mod agent;
pub mod casing;
pub mod cli;
pub mod config;
pub mod domain;
pub mod gui;
pub mod json;
pub mod number;
pub mod path;
pub mod request;
pub mod sorting;
pub mod system;
pub mod table;
pub mod text;
pub mod text_laws;
