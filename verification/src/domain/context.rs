//! What a tool call knows of the turn it runs in.
use vstd::prelude::*;

verus! {

/// The session a tool is executing within and how it may ask for consent.
#[derive(Debug)]
pub struct SessionContext {
    pub session_id: String,
    /// Whether a human can answer an approval prompt in the middle of the turn.
    pub interactive: bool,
    /// Whether calls that need approval are approved without a prompt. Set only
    /// for a turn of the host operator.
    pub auto_approve: bool,
    /// Whether a live client is watching the turn.
    pub watched: bool,
}

impl SessionContext {
    /// Whether `self` is an unwatched context of the session.
    pub open spec fn is_plain(self, session: Seq<char>, interactive: bool, auto_approve: bool) -> bool {
        &&& self.session_id@ == session
        &&& self.interactive == interactive
        &&& self.auto_approve == auto_approve
        &&& !self.watched
    }

    /// A context that knows the session but cannot prompt: what needs approval is
    /// denied.
    pub fn detached(session_id: &str) -> (r: Self)
        ensures
            r.is_plain(session_id@, false, false),
    {
        SessionContext {
            session_id: session_id.to_owned(),
            interactive: false,
            auto_approve: false,
            watched: false,
        }
    }

    /// A context of the host operator: what needs approval is approved.
    pub fn trusted(session_id: &str) -> (r: Self)
        ensures
            r.is_plain(session_id@, false, true),
    {
        SessionContext {
            session_id: session_id.to_owned(),
            interactive: false,
            auto_approve: true,
            watched: false,
        }
    }

    /// A context whose prompts are answered over HTTP.
    pub fn interactive_http(session_id: &str) -> (r: Self)
        ensures
            r.is_plain(session_id@, true, false),
    {
        SessionContext {
            session_id: session_id.to_owned(),
            interactive: true,
            auto_approve: false,
            watched: false,
        }
    }

    /// The same context with a live watcher.
    pub fn with_event_sink(self) -> (r: Self)
        ensures
            r == (SessionContext { watched: true, ..self }),
    {
        SessionContext {
            session_id: self.session_id,
            interactive: self.interactive,
            auto_approve: self.auto_approve,
            watched: true,
        }
    }
}

/// The ledger handle of one turn: it numbers the turn's tool steps.
#[derive(Debug)]
pub struct RunContext {
    pub run_id: String,
    seq: i64,
}

impl RunContext {
    /// The run that the steps belong to.
    pub closed spec fn run_name(self) -> Seq<char> {
        self.run_id@
    }

    /// How many steps have been claimed.
    pub closed spec fn claimed(self) -> i64 {
        self.seq
    }

    pub fn new(run_id: String) -> (r: Self)
        ensures
            r.run_name() == run_id@,
            r.claimed() == 0,
    {
        RunContext { run_id, seq: 0 }
    }

    /// Whether claiming a step turns `self` into `after` and gives `r`.
    pub open spec fn claims(self, r: i64, after: Self) -> bool {
        &&& r == self.claimed()
        &&& after.claimed() == (if r == i64::MAX {
            i64::MIN
        } else {
            (r + 1) as i64
        })
        &&& after.run_name() == self.run_name()
    }

    /// Claim the next step's sequence number.
    pub fn next_seq(&mut self) -> (r: i64)
        ensures
            old(self).claims(r, *final(self)),
    {
        let claimed: i64 = self.seq;
        self.seq = if claimed == i64::MAX {
            i64::MIN
        } else {
            claimed + 1
        };
        claimed
    }

    /// How many tool steps have been claimed so far.
    pub fn steps_count(&self) -> (r: i64)
        ensures
            r == self.claimed(),
    {
        self.seq
    }
}

/// One claim of a step: the handle on the run that made it, and the number it got.
pub ghost struct Claim {
    pub handle: int,
    pub number: i64,
}

/// Whether `claims` were made one after the other on one counter, whichever handle made
/// each, and took it through `states`.
pub open spec fn is_history(states: Seq<RunContext>, claims: Seq<Claim>) -> bool {
    &&& states.len() == claims.len() + 1
    &&& forall|i: int|
        0 <= i < claims.len() ==> (#[trigger] states[i]).claims(claims[i].number, states[i + 1])
}

/// The steps of a run are numbered from zero without a gap over all its handles: in
/// whatever order the handles on one new counter make `claims`, the numbers are 0, 1, 2
/// and so on, each given once, so that a handle's own numbers grow, and the count is then
/// the number of claims.
pub proof fn steps_are_numbered_without_a_gap(states: Seq<RunContext>, claims: Seq<Claim>)
    requires
        is_history(states, claims),
        claims.len() <= i64::MAX,
        states[0].claimed() == 0,
    ensures
        forall|i: int| 0 <= i < claims.len() ==> (#[trigger] claims[i]).number == i,
        forall|i: int, j: int|
            0 <= i < j < claims.len() ==> (#[trigger] claims[i]).number < (
            #[trigger] claims[j]).number,
        states.last().claimed() == claims.len(),
        states.last().run_name() == states[0].run_name(),
    decreases claims.len(),
{
    if claims.len() > 0 {
        let n = claims.len() as int;
        let init = claims.drop_last();
        let before = states.drop_last();
        assert forall|i: int| 0 <= i < init.len() implies (#[trigger] before[i]).claims(
            init[i].number,
            before[i + 1],
        ) by {
            assert(states[i].claims(claims[i].number, states[i + 1]));
        }
        steps_are_numbered_without_a_gap(before, init);
        assert(states[n - 1].claims(claims[n - 1].number, states[n]));
        assert forall|i: int| 0 <= i < claims.len() implies (#[trigger] claims[i]).number == i by {
            if i < n - 1 {
                assert(init[i].number == i);
            }
        }
    }
}

/// The context handed to a tool call.
#[derive(Debug)]
pub struct ToolContext {
    pub session: SessionContext,
    pub run: Option<RunContext>,
}

impl ToolContext {
    pub fn new(session: SessionContext, run: Option<RunContext>) -> (r: Self)
        ensures
            r.session == session,
            r.run == run,
    {
        ToolContext { session, run }
    }
}

} // verus!
