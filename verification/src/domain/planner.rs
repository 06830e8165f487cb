//! What a turn should do, as a plan.
use crate::domain::message::Session;
use vstd::prelude::*;

verus! {

#[derive(Debug)]
pub enum Plan {
    RespondDirectly,
    CallTool { tool_name: String, input: String },
    MultiStep { steps: Vec<Step> },
}

#[derive(Debug)]
pub struct Step {
    pub tool_name: String,
    pub input: String,
}

/// Decides what a turn should do.
pub trait Planner {
    fn plan(&self, session: &Session) -> Plan;
}

} // verus!
