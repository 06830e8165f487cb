//! One turn of the agent: the loop of model and tools, its budget, and the entry it
//! leaves in the run ledger.
use crate::domain::message::Session;
use crate::domain::run;
use crate::domain::run::{truncate, Run, RunStatus, RUN_FIELD_CAP};
use crate::number;
use crate::text;
use vstd::prelude::*;

verus! {

/// Fed back in place of tool results once the rounds of a turn are used up.
pub const BUDGET_REACHED_NOTE: &'static str =
    "Tool-call budget for this turn reached; do not call any more tools. Reply to the user now using what you already have.";

/// The reply of a turn whose model went on calling tools past its budget.
pub const LIMIT_REPLY: &'static str =
    "(Reached the tool-call limit for this turn; answering with what I have.)";

/// A tool call that the model asks for.
#[derive(Debug)]
pub struct ToolCallReq {
    pub id: String,
    pub call_id: Option<String>,
    pub name: String,
    pub args: String,
}

/// What a tool call gave, for the model to read.
#[derive(Debug)]
pub struct ToolOutcome {
    pub id: String,
    pub call_id: Option<String>,
    pub content: String,
}

/// What the model does in a round.
#[derive(Debug)]
pub enum ModelStep {
    Reply(String),
    ToolCalls(Vec<ToolCallReq>),
}

/// What the loop does next.
#[derive(Debug)]
pub enum LoopAction {
    /// The turn is over with this reply.
    Finish(String),
    /// Run these calls as one round and hand the outcomes to the model.
    Execute(Vec<ToolCallReq>),
    /// Hand these outcomes to the model; none of its calls runs.
    Report(Vec<ToolOutcome>),
}

/// Whether `out` answers each call with the note that the budget is used up.
pub open spec fn is_refusal(calls: Seq<ToolCallReq>, out: Seq<ToolOutcome>) -> bool {
    &&& out.len() == calls.len()
    &&& forall|i: int|
        0 <= i < calls.len() ==> {
            &&& (#[trigger] out[i]).id@ == calls[i].id@
            &&& out[i].call_id == calls[i].call_id
            &&& out[i].content@ == BUDGET_REACHED_NOTE@
        }
}

/// Answers each call with the note that the budget is used up.
pub fn refuse(calls: &Vec<ToolCallReq>) -> (r: Vec<ToolOutcome>)
    ensures
        is_refusal(calls@, r@),
{
    let mut out: Vec<ToolOutcome> = Vec::new();
    let mut i: usize = 0;
    while i < calls.len()
        invariant
            i <= calls.len(),
            out@.len() == i,
            forall|k: int|
                0 <= k < i ==> {
                    &&& (#[trigger] out@[k]).id@ == calls@[k].id@
                    &&& out@[k].call_id == calls@[k].call_id
                    &&& out@[k].content@ == BUDGET_REACHED_NOTE@
                },
        decreases calls.len() - i,
    {
        out.push(
            ToolOutcome {
                id: calls[i].id.clone(),
                call_id: text::clone_opt(&calls[i].call_id),
                content: BUDGET_REACHED_NOTE.to_owned(),
            },
        );
        i = i + 1;
    }
    out
}

/// Where a turn stands: how many rounds of tools ran, and whether the budget was used up.
#[derive(Debug)]
pub struct TurnLoop {
    /// Most rounds of tools in a turn.
    pub max_turns: usize,
    pub rounds: usize,
    pub over: bool,
}

impl TurnLoop {
    /// Never more rounds than the budget, and the budget is used up only once all ran.
    pub open spec fn well_formed(self) -> bool {
        self.rounds <= self.max_turns && (self.over ==> self.rounds == self.max_turns)
    }

    /// A turn before its first round.
    pub fn new(max_turns: usize) -> (r: Self)
        ensures
            r == (TurnLoop { max_turns, rounds: 0, over: false }),
            r.well_formed(),
    {
        TurnLoop { max_turns, rounds: 0, over: false }
    }

    /// What to do about the model's step.
    pub fn advance(&mut self, step: ModelStep) -> (r: LoopAction)
        requires
            old(self).well_formed(),
        ensures
            final(self).well_formed(),
            match old(self).next(step is ToolCalls) {
                Some(next) => *final(self) == next && !(r is Finish),
                None => *final(self) == *old(self) && r is Finish,
            },
            match step {
                ModelStep::Reply(t) => r == LoopAction::Finish(t),
                ModelStep::ToolCalls(calls) => if old(self).over {
                    r matches LoopAction::Finish(t) && t@ == LIMIT_REPLY@
                } else if old(self).rounds < old(self).max_turns {
                    r == LoopAction::Execute(calls)
                } else {
                    r matches LoopAction::Report(out) && is_refusal(calls@, out@)
                },
            },
    {
        match step {
            ModelStep::Reply(t) => LoopAction::Finish(t),
            ModelStep::ToolCalls(calls) => {
                if self.over {
                    LoopAction::Finish(LIMIT_REPLY.to_owned())
                } else if self.rounds < self.max_turns {
                    self.rounds = self.rounds + 1;
                    LoopAction::Execute(calls)
                } else {
                    self.over = true;
                    LoopAction::Report(refuse(&calls))
                }
            },
        }
    }

    /// Where a turn stands after a step of the model; none where the step ends the turn.
    pub open spec fn next(self, calls_tools: bool) -> Option<TurnLoop> {
        if !calls_tools || self.over {
            None
        } else if self.rounds < self.max_turns {
            Some(TurnLoop { rounds: (self.rounds + 1) as usize, ..self })
        } else {
            Some(TurnLoop { over: true, ..self })
        }
    }

    /// Where a turn stands after the steps of the model, each by whether it calls tools.
    pub open spec fn played(self, steps: Seq<bool>) -> Option<TurnLoop>
        decreases steps.len(),
    {
        if steps.len() == 0 {
            Some(self)
        } else {
            match self.played(steps.drop_last()) {
                Some(l) => l.next(steps.last()),
                None => None,
            }
        }
    }
}

/// A turn always ends, whatever the model does: never more rounds of tools run than the
/// budget allows, and two steps past it the turn is over. Within the budget it goes on for
/// as long as the model calls tools.
pub proof fn turns_end(max_turns: usize, steps: Seq<bool>)
    ensures
        ({
            let l = TurnLoop { max_turns, rounds: 0, over: false }.played(steps);
            &&& l matches Some(x) ==> x.well_formed() && x.rounds <= steps.len()
            &&& steps.len() >= max_turns + 2 ==> l is None
            &&& l is Some <==> steps.len() <= max_turns + 1 && steps == Seq::new(
                steps.len(),
                |i: int| true,
            )
        }),
    decreases steps.len(),
{
    let start = TurnLoop { max_turns, rounds: 0, over: false };
    if steps.len() == 0 {
        assert(steps =~= Seq::new(steps.len(), |i: int| true));
    } else {
        let init = steps.drop_last();
        turns_end(max_turns, init);
        lemma_where(max_turns, init);
        let all = Seq::new(steps.len(), |i: int| true);
        let fewer = Seq::new(init.len(), |i: int| true);
        if start.played(steps) is Some {
            assert(steps.last());
            assert forall|i: int| 0 <= i < steps.len() implies steps[i] == all[i] by {
                if i < init.len() {
                    assert(init[i] == fewer[i]);
                }
            }
            assert(steps =~= all);
        }
        if steps.len() <= max_turns + 1 && steps == all {
            assert forall|i: int| 0 <= i < init.len() implies init[i] == fewer[i] by {
                assert(steps[i] == all[i]);
            }
            assert(init =~= fewer);
            assert(steps[steps.len() - 1] == all[steps.len() - 1]);
        }
    }
}

/// A turn that goes on has run one round for each step, up to the budget.
proof fn lemma_where(max_turns: usize, steps: Seq<bool>)
    ensures
        ({
            let l = TurnLoop { max_turns, rounds: 0, over: false }.played(steps);
            l matches Some(x) ==> x.max_turns == max_turns && if steps.len() <= max_turns {
                x.rounds == steps.len() && !x.over
            } else {
                x.rounds == max_turns && x.over
            }
        }),
    decreases steps.len(),
{
    if steps.len() > 0 {
        lemma_where(max_turns, steps.drop_last());
    }
}

/// The session that a turn works on: the one on file, or an empty one that is yet to be
/// saved, as the flag tells.
pub fn open_session(found: Option<Session>, session_id: &str, now: i64) -> (r: (Session, bool))
    ensures
        match found {
            Some(s) => r.0 == s && !r.1,
            None => {
                &&& r.0.id@ == session_id@
                &&& r.0.messages@.len() == 0
                &&& r.0.created_at == now
                &&& r.1
            },
        },
{
    match found {
        Some(s) => (s, false),
        None => (
            Session { id: session_id.to_owned(), messages: Vec::new(), created_at: now },
            true,
        ),
    }
}

/// The plan line of a run: how many tool calls it made.
pub open spec fn plan_text(steps: i64) -> Seq<char> {
    if steps == 0 {
        "respond"@
    } else {
        number::signed(steps as int) + " tool call(s)"@
    }
}

/// Closes the ledger entry of a turn with how it ended.
pub fn close_run(opened: Run, steps: i64, ended_at: i64, outcome: &Result<String, String>) -> (r:
    Run)
    ensures
        r.plan@ == plan_text(steps),
        r.ended_at == Some(ended_at),
        match *outcome {
            Ok(reply) => {
                &&& r.status == RunStatus::Done
                &&& r.final_output@ == run::truncated(reply@, RUN_FIELD_CAP as int)
                &&& r.error == opened.error
            },
            Err(e) => {
                &&& r.status == RunStatus::Failed
                &&& r.error@ == run::truncated(e@, RUN_FIELD_CAP as int)
                &&& r.final_output == opened.final_output
            },
        },
        r == (Run {
            plan: r.plan,
            ended_at: r.ended_at,
            status: r.status,
            final_output: r.final_output,
            error: r.error,
            ..opened
        }),
{
    let mut r = opened;
    r.plan = if steps == 0 {
        "respond".to_owned()
    } else {
        let mut p = number::write_signed(steps);
        p.push_str(" tool call(s)");
        p
    };
    r.ended_at = Some(ended_at);
    match outcome {
        Ok(reply) => {
            r.status = RunStatus::Done;
            r.final_output = truncate(reply, RUN_FIELD_CAP);
        },
        Err(e) => {
            r.status = RunStatus::Failed;
            r.error = truncate(e, RUN_FIELD_CAP);
        },
    }
    r
}

/// Whether a turn is one after which the session is looked over: every `interval`-th, and every
/// one where the interval is zero.
pub fn review_due(turns: usize, interval: usize) -> (r: bool)
    ensures
        r == (interval == 0 || turns % interval == 0),
{
    interval == 0 || turns % interval == 0
}

/// The settings of the agent.
#[derive(Debug, Clone, Copy, PartialEq, Eq, Structural)]
pub struct AgentRuntime {
    /// Most rounds of tools in a turn before a final answer is forced.
    pub max_turns: usize,
    /// How many recent messages a turn loads; zero loads the whole transcript.
    pub history_window: usize,
    /// Whether sessions are looked over at all.
    pub reviewer: bool,
    pub review_interval: usize,
}

impl AgentRuntime {
    /// A turn before its first round.
    pub fn run_turn(&self) -> (r: TurnLoop)
        ensures
            r == (TurnLoop { max_turns: self.max_turns, rounds: 0, over: false }),
    {
        TurnLoop::new(self.max_turns)
    }

    /// Whether the session is looked over after a turn, by the user turns of the whole session.
    pub fn wants_review(&self, turns: usize) -> (r: bool)
        ensures
            r == (self.reviewer && (self.review_interval == 0 || turns % self.review_interval
                == 0)),
    {
        self.reviewer && review_due(turns, self.review_interval)
    }
}

} // verus!
