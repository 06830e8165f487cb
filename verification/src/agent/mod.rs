//! The agent: its turns, its conversations and its background work.
pub mod briefing;
pub mod chat_laws;
pub mod daemon;
pub mod dispatcher;
pub mod gateway;
pub mod interaction;
pub mod laws;
pub mod pairing;
pub mod planner;
pub mod prompt_laws;
pub mod reviewer;
pub mod runtime;
pub mod schedule;
pub mod system_prompt;
