//! The front door for chat messages: one turn at a time in each session, a short queue
//! behind it, and what the chat is told.
use crate::agent::interaction;
use crate::agent::interaction::{classify, Command, Decision, PairAction};
use crate::casing;
use crate::domain::pairing::{ApproveOutcome, PairingRequest, PairingStatus};
use crate::number;
use crate::table::Table;
use crate::text;
use vstd::prelude::*;

verus! {

/// How many messages a session may queue during a turn before more are rejected.
pub const QUEUE_CAP: usize = 2;

/// What the chat is told when its queue is full.
pub const QUEUE_FULL: &'static str = "上一条还在处理、队列已满；这条未处理，请稍后重发。";

/// What the chat is told once a fresh session began.
pub const NEW_SESSION: &'static str = "已开始新会话，之前的上下文已归档。";

/// What the chat is told when a turn panicked.
pub const TURN_PANICKED: &'static str = "处理消息时发生内部错误，请重试。";

/// What the chat is told when the WeChat channel is off.
pub const WECHAT_OFF: &'static str =
    "微信通道未启用：先在 ~/.komo/config.toml 配置 [channels.wechat]。";

/// What the chat is told while the WeChat code is made.
pub const WECHAT_BEGIN: &'static str = "正在生成微信登录二维码，请稍候…";

/// A message that came during its session's turn, and where its reply goes.
#[derive(Debug)]
pub struct QueuedMessage<S> {
    pub input: String,
    pub sink: S,
}

/// What becomes of a plain message.
#[derive(Debug)]
pub enum Admission<S> {
    /// No turn is in flight: run this one.
    Start(QueuedMessage<S>),
    /// Held until the turn in flight ends.
    Queued,
    /// The queue is full; the reply says so.
    Rejected(S),
}

/// What an inbound message calls for.
#[derive(Debug)]
pub enum Reaction<S> {
    /// Deliver a decision to the pending approval.
    Resolve(Decision, S),
    /// Clear the session and start afresh.
    Rotate(S),
    /// Make the session the home channel.
    SetHome(S),
    /// Start the WeChat login.
    WechatLogin(S),
    /// Run a pairing command.
    Pair(PairAction, S),
    /// The message answers the question that the turn in flight asked.
    Answer(String),
    /// The message is one for the agent.
    Turn(Admission<S>),
}

/// The turns in flight: a session is listed exactly while a turn of it runs, with the
/// messages that wait behind.
pub struct GatewayDispatcher<S> {
    inflight: Table<Vec<QueuedMessage<S>>>,
}

/// The queues of the sessions in flight.
pub open spec fn queues<S>(m: Map<Seq<char>, Vec<QueuedMessage<S>>>) -> Map<
    Seq<char>,
    Seq<QueuedMessage<S>>,
> {
    m.map_values(|v: Vec<QueuedMessage<S>>| v@)
}

impl<S> GatewayDispatcher<S> {
    /// The sessions in flight with their queues.
    pub closed spec fn view(&self) -> Map<Seq<char>, Seq<QueuedMessage<S>>> {
        queues(self.inflight@)
    }

    /// Nothing is in flight.
    pub fn new() -> (r: Self)
        ensures
            r@ == Map::<Seq<char>, Seq<QueuedMessage<S>>>::empty(),
    {
        let r = GatewayDispatcher { inflight: Table::new() };
        assert(r@ =~= Map::<Seq<char>, Seq<QueuedMessage<S>>>::empty());
        r
    }

    /// How many sessions have a turn in flight; a shutdown waits for them.
    pub fn inflight_count(&self) -> (r: usize)
        ensures
            self@.dom().finite(),
            r == self@.dom().len(),
    {
        assert(self@.dom() =~= self.inflight@.dom());
        self.inflight.len()
    }

    /// Takes in a plain message: it starts a turn, waits behind the one in flight, or is
    /// rejected where `QUEUE_CAP` already wait.
    pub fn spawn_turn(&mut self, session: &str, input: String, sink: S) -> (r: Admission<S>)
        ensures
            if !old(self)@.dom().contains(session@) {
                &&& final(self)@ == old(self)@.insert(session@, Seq::empty())
                &&& r == Admission::Start(QueuedMessage { input, sink })
            } else if old(self)@[session@].len() < QUEUE_CAP {
                &&& final(self)@ == old(self)@.insert(
                    session@,
                    old(self)@[session@].push(QueuedMessage { input, sink }),
                )
                &&& r is Queued
            } else {
                &&& final(self)@ == old(self)@
                &&& r == Admission::<S>::Rejected(sink)
            },
    {
        let ghost before = self.inflight@;
        match self.inflight.take(session) {
            None => {
                let empty: Vec<QueuedMessage<S>> = Vec::new();
                self.inflight.put(session, empty);
                assert(self@ =~= queues(before).insert(session@, Seq::empty()));
                Admission::Start(QueuedMessage { input, sink })
            },
            Some(mut queue) => {
                if queue.len() >= QUEUE_CAP {
                    self.inflight.put(session, queue);
                    assert(self.inflight@ =~= before);
                    Admission::Rejected(sink)
                } else {
                    queue.push(QueuedMessage { input, sink });
                    let ghost now = queue@;
                    self.inflight.put(session, queue);
                    assert(self@ =~= queues(before).insert(session@, now));
                    Admission::Queued
                }
            },
        }
    }

    /// A turn ended: the message that waited longest runs next, and the session stays in
    /// flight; with nothing waiting it is idle.
    pub fn finish_turn(&mut self, session: &str) -> (r: Option<QueuedMessage<S>>)
        ensures
            if !old(self)@.dom().contains(session@) {
                final(self)@ == old(self)@ && r is None
            } else if old(self)@[session@].len() == 0 {
                final(self)@ == old(self)@.remove(session@) && r is None
            } else {
                &&& r == Some(old(self)@[session@][0])
                &&& final(self)@ == old(self)@.insert(session@, old(self)@[session@].skip(1))
            },
    {
        let ghost before = self.inflight@;
        match self.inflight.take(session) {
            None => {
                assert(self.inflight@ =~= before);
                None
            },
            Some(mut queue) => {
                if queue.len() == 0 {
                    assert(self@ =~= queues(before).remove(session@));
                    None
                } else {
                    let ghost waiting = queue@;
                    let next = queue.remove(0);
                    assert(queue@ =~= waiting.skip(1));
                    self.inflight.put(session, queue);
                    assert(self@ =~= queues(before).insert(session@, waiting.skip(1)));
                    Some(next)
                }
            },
        }
    }

    /// A turn was cut off: the session is released, and what waited is dropped. Returns
    /// how many messages were lost.
    pub fn abandon(&mut self, session: &str) -> (r: usize)
        ensures
            final(self)@ == old(self)@.remove(session@),
            r == if old(self)@.dom().contains(session@) {
                old(self)@[session@].len() as int
            } else {
                0
            },
    {
        let ghost before = self.inflight@;
        match self.inflight.take(session) {
            None => {
                assert(self@ =~= queues(before).remove(session@));
                0
            },
            Some(queue) => {
                assert(self@ =~= queues(before).remove(session@));
                queue.len()
            },
        }
    }

    /// What an inbound message calls for; `asked` says whether the turn in flight asked
    /// the user a question. Commands come before the question, and a question before a
    /// new turn.
    pub fn handle(&mut self, session: &str, message: String, sink: S, asked: bool) -> (r: Reaction<
        S,
    >)
        ensures
            exists|c: Command|
                #![trigger is_reaction(c, asked, sink, r)]
                {
                    &&& interaction::reads(
                        c,
                        message@,
                        casing::lowercase(text::trimmed(message@)),
                        interaction::verb_of(message@),
                    )
                    &&& is_reaction(c, asked, sink, r)
                    &&& if c is Plain && !asked {
                        is_admission(old(self)@, session@, message@, sink, final(self)@, r)
                    } else {
                        final(self)@ == old(self)@
                    }
                },
    {
        let command = classify(&message);
        let ghost c = command;
        let r = match command {
            Command::Approve(decision) => Reaction::Resolve(decision, sink),
            Command::Deny => Reaction::Resolve(Decision::Deny, sink),
            Command::New => Reaction::Rotate(sink),
            Command::SetHome => Reaction::SetHome(sink),
            Command::WechatLogin => Reaction::WechatLogin(sink),
            Command::Pair(action) => Reaction::Pair(action, sink),
            Command::Plain(input) => {
                proof {
                    interaction::plain_is_the_message(
                        c,
                        message@,
                        casing::lowercase(text::trimmed(message@)),
                        interaction::verb_of(message@),
                    );
                }
                if asked {
                    Reaction::Answer(input)
                } else {
                    let ghost before = self@;
                    let taken = self.spawn_turn(session, input, sink);
                    let r = Reaction::Turn(taken);
                    proof {
                        if before.dom().contains(session@) && before[session@].len() < QUEUE_CAP {
                            let m = QueuedMessage { input, sink };
                            assert(before[session@].push(m).drop_last() =~= before[session@]);
                            assert(self@.dom() =~= before.dom());
                        }
                        assert(is_admission(before, session@, message@, sink, self@, r));
                    }
                    r
                }
            },
        };
        assert(is_reaction(c, asked, sink, r));
        r
    }
}

/// Whether `r` is what a command calls for.
pub open spec fn is_reaction<S>(c: Command, asked: bool, sink: S, r: Reaction<S>) -> bool {
    match c {
        Command::Approve(d) => r == Reaction::Resolve(d, sink),
        Command::Deny => r == Reaction::Resolve(Decision::Deny, sink),
        Command::New => r == Reaction::Rotate(sink),
        Command::SetHome => r == Reaction::SetHome(sink),
        Command::WechatLogin => r == Reaction::WechatLogin(sink),
        Command::Pair(a) => r == Reaction::Pair(a, sink),
        Command::Plain(input) => if asked {
            r == Reaction::<S>::Answer(input)
        } else {
            r is Turn
        },
    }
}

/// Whether a plain message was taken in as the queue allows.
pub open spec fn is_admission<S>(
    before: Map<Seq<char>, Seq<QueuedMessage<S>>>,
    session: Seq<char>,
    input: Seq<char>,
    sink: S,
    after: Map<Seq<char>, Seq<QueuedMessage<S>>>,
    r: Reaction<S>,
) -> bool {
    if !before.dom().contains(session) {
        &&& after == before.insert(session, Seq::empty())
        &&& r matches Reaction::Turn(Admission::Start(m))
        &&& m.input@ == input && m.sink == sink
    } else if before[session].len() < QUEUE_CAP {
        &&& r == Reaction::Turn(Admission::<S>::Queued)
        &&& after.dom() == before.dom()
        &&& after == before.insert(session, after[session])
        &&& after[session].len() == before[session].len() + 1
        &&& after[session].drop_last() == before[session]
        &&& after[session].last().input@ == input && after[session].last().sink == sink
    } else {
        &&& after == before
        &&& r == Reaction::Turn(Admission::<S>::Rejected(sink))
    }
}

/// Messages of a session run in the order they came: what is queued behind `k` others
/// runs after them, whatever other sessions do.
pub proof fn queues_are_fifo<S>(waiting: Seq<QueuedMessage<S>>, last: QueuedMessage<S>, k: nat)
    requires
        k <= waiting.len(),
    ensures
        waiting.push(last).skip(k as int) == waiting.skip(k as int).push(last),
        waiting.push(last).skip(waiting.len() as int) == seq![last],
{
    assert(waiting.push(last).skip(k as int) =~= waiting.skip(k as int).push(last));
    assert(waiting.push(last).skip(waiting.len() as int) =~= seq![last]);
}

// ---- What the chat is told ----

/// The reply to an approval, where `acked` says whether a prompt was waiting.
pub fn approve_reply(acked: bool, decision: Decision) -> (r: &'static str)
    ensures
        r@ == if !acked {
            "当前没有待审批的操作。"@
        } else if decision == Decision::Session {
            "✅ 已批准（本会话内同类操作将自动放行）"@
        } else {
            "✅ 已批准"@
        },
{
    if !acked {
        "当前没有待审批的操作。"
    } else if decision == Decision::Session {
        "✅ 已批准（本会话内同类操作将自动放行）"
    } else {
        "✅ 已批准"
    }
}

/// The reply to a denial, where `acked` says whether a prompt was waiting.
pub fn deny_reply(acked: bool) -> (r: &'static str)
    ensures
        r@ == if acked {
            "已拒绝。"@
        } else {
            "当前没有待审批的操作。"@
        },
{
    if acked {
        "已拒绝。"
    } else {
        "当前没有待审批的操作。"
    }
}

/// The reply to a change of the home channel.
pub fn home_reply(stored: bool) -> (r: &'static str)
    ensures
        r@ == if stored {
            "✅ 已将当前会话设为提醒与通知的接收频道。"@
        } else {
            "设置接收频道失败，请稍后再试。"@
        },
{
    if stored {
        "✅ 已将当前会话设为提醒与通知的接收频道。"
    } else {
        "设置接收频道失败，请稍后再试。"
    }
}

/// How a pairing reads at `now`.
pub open spec fn pairing_state(p: PairingRequest, now: i64) -> Seq<char> {
    if p.status == PairingStatus::Approved {
        "approved"@
    } else if p.expired(now) {
        "expired"@
    } else {
        "pending"@
    }
}

/// How a pairing reads at `now`.
pub fn state_of(p: &PairingRequest, now: i64) -> (r: &'static str)
    ensures
        r@ == pairing_state(*p, now),
{
    match p.status {
        PairingStatus::Approved => "approved",
        PairingStatus::Pending => if p.is_expired(now) {
            "expired"
        } else {
            "pending"
        },
    }
}

/// The lines of a list of pairings.
pub open spec fn pairing_lines(list: Seq<PairingRequest>, now: i64) -> Seq<char>
    decreases list.len(),
{
    if list.len() == 0 {
        "配对列表：\n"@
    } else {
        pairing_lines(list.drop_last(), now) + "· "@ + list.last().id@ + " ["@ + pairing_state(
            list.last(),
            now,
        ) + "]\n"@
    }
}

/// The reply to `/pair list`.
pub open spec fn pair_listing(list: Seq<PairingRequest>, now: i64) -> Seq<char> {
    if list.len() == 0 {
        "暂无配对。陌生发送者首次联系时会收到一个配对码。"@
    } else {
        pairing_lines(list, now) + "\n批准：/pair approve <发送者给你的 code>"@
    }
}

/// The reply to `/pair list`.
pub fn pair_list_reply(list: &Vec<PairingRequest>, now: i64) -> (r: String)
    ensures
        r@ == pair_listing(list@, now),
{
    if list.len() == 0 {
        return "暂无配对。陌生发送者首次联系时会收到一个配对码。".to_owned();
    }
    let mut out = "配对列表：\n".to_owned();
    let mut i: usize = 0;
    while i < list.len()
        invariant
            i <= list.len(),
            out@ == pairing_lines(list@.take(i as int), now),
        decreases list.len() - i,
    {
        out.push_str("· ");
        out.push_str(&list[i].id);
        out.push_str(" [");
        out.push_str(state_of(&list[i], now));
        out.push_str("]\n");
        i = i + 1;
        assert(list@.take(i as int).drop_last() =~= list@.take(i - 1));
    }
    assert(list@.take(i as int) =~= list@);
    out.push_str("\n批准：/pair approve <发送者给你的 code>");
    out
}

/// The code that the host looks up: trimmed, in capitals.
pub fn lookup_code(code: &str) -> (r: String)
    ensures
        r@ == casing::uppercase(text::trimmed(code@)),
{
    text::trim(code).to_uppercase()
}

/// Whole minutes that cover a number of seconds.
pub open spec fn minutes(secs: int) -> int {
    if secs + 59 >= 0 {
        (secs + 59) / 60
    } else {
        -(-(secs + 59) / 60)
    }
}

/// Whole minutes that cover a number of seconds, in writing.
pub fn write_minutes(secs: i64) -> (r: String)
    ensures
        r@ == number::signed(minutes(secs as int)),
{
    let x: i128 = secs as i128 + 59;
    if x >= 0 {
        number::write_wide(x / 60)
    } else {
        number::write_wide(-(-x / 60))
    }
}

/// The reply to `/pair approve`, where `code` is the code that was looked up.
pub open spec fn approval_answer(code: Seq<char>, outcome: ApproveOutcome) -> Seq<char> {
    match outcome {
        ApproveOutcome::Approved(req) => "✅ 已配对 "@ + req.id@ + " —— 对方现在可以对话了。"@,
        ApproveOutcome::NotFound => "没有匹配 code "@ + code
            + " 的待批准配对（未知或已过期，见 /pair list）。"@,
        ApproveOutcome::Locked { retry_after_secs } => "失败次数过多，批准已锁定，请 "@
            + number::signed(minutes(retry_after_secs as int)) + " 分钟后再试。"@,
    }
}

/// The reply to `/pair approve`, where `code` is the code that was looked up.
pub fn pair_approve_reply(code: &str, outcome: &ApproveOutcome) -> (r: String)
    ensures
        r@ == approval_answer(code@, *outcome),
{
    match outcome {
        ApproveOutcome::Approved(req) => {
            let mut out = "✅ 已配对 ".to_owned();
            out.push_str(&req.id);
            out.push_str(" —— 对方现在可以对话了。");
            out
        },
        ApproveOutcome::NotFound => {
            let mut out = "没有匹配 code ".to_owned();
            out.push_str(code);
            out.push_str(" 的待批准配对（未知或已过期，见 /pair list）。");
            out
        },
        ApproveOutcome::Locked { retry_after_secs } => {
            let mut out = "失败次数过多，批准已锁定，请 ".to_owned();
            out.push_str(&write_minutes(*retry_after_secs));
            out.push_str(" 分钟后再试。");
            out
        },
    }
}

/// The reply to `/pair revoke`.
pub open spec fn revocation_answer(id: Seq<char>, found: bool) -> Seq<char> {
    if found {
        "已解除配对 "@ + id + "。"@
    } else {
        "没有配对 "@ + id + "（见 /pair list）。"@
    }
}

/// The reply to `/pair revoke`, where `found` says whether there was such a pairing.
pub fn pair_revoke_reply(id: &str, found: bool) -> (r: String)
    ensures
        r@ == revocation_answer(id@, found),
{
    if found {
        let mut out = "已解除配对 ".to_owned();
        out.push_str(id);
        out.push_str("。");
        out
    } else {
        let mut out = "没有配对 ".to_owned();
        out.push_str(id);
        out.push_str("（见 /pair list）。");
        out
    }
}

/// The reply to a pairing command that the store failed, or that was not understood.
pub open spec fn trouble(action: PairAction) -> Seq<char> {
    match action {
        PairAction::Usage =>
            "用法：/pair list · /pair approve <code> · /pair revoke <platform:sender_id>"@,
        PairAction::List => "读取配对列表失败，请稍后再试。"@,
        PairAction::Approve(_) => "批准失败，请稍后再试。"@,
        PairAction::Revoke(_) => "解除配对失败，请稍后再试。"@,
    }
}

/// The reply to a pairing command that the store failed, or that was not understood.
pub fn pair_trouble(action: &PairAction) -> (r: &'static str)
    ensures
        r@ == trouble(*action),
{
    match action {
        PairAction::Usage =>
            "用法：/pair list · /pair approve <code> · /pair revoke <platform:sender_id>",
        PairAction::List => "读取配对列表失败，请稍后再试。",
        PairAction::Approve(_) => "批准失败，请稍后再试。",
        PairAction::Revoke(_) => "解除配对失败，请稍后再试。",
    }
}

/// What the store of pairings said to a command.
#[derive(Debug)]
pub enum PairAnswer {
    Listed(Vec<PairingRequest>),
    Tried(ApproveOutcome),
    Revoked(bool),
    Failed,
}

/// The reply to a pairing command.
pub open spec fn pair_answer(action: PairAction, answer: PairAnswer, now: i64) -> Seq<char> {
    match (action, answer) {
        (PairAction::List, PairAnswer::Listed(list)) => pair_listing(list@, now),
        (PairAction::Approve(code), PairAnswer::Tried(outcome)) => approval_answer(
            casing::uppercase(text::trimmed(code@)),
            outcome,
        ),
        (PairAction::Revoke(id), PairAnswer::Revoked(found)) => revocation_answer(id@, found),
        _ => trouble(action),
    }
}

/// The reply to a pairing command, given what the store said to it. An approval is looked
/// up by [`lookup_code`].
pub fn handle_pair(action: &PairAction, answer: &PairAnswer, now: i64) -> (r: String)
    ensures
        r@ == pair_answer(*action, *answer, now),
{
    match (action, answer) {
        (PairAction::List, PairAnswer::Listed(list)) => pair_list_reply(list, now),
        (PairAction::Approve(code), PairAnswer::Tried(outcome)) => pair_approve_reply(
            &lookup_code(code),
            outcome,
        ),
        (PairAction::Revoke(id), PairAnswer::Revoked(found)) => pair_revoke_reply(id, *found),
        _ => pair_trouble(action).to_owned(),
    }
}

/// What the chat is told once the WeChat login ended.
pub fn wechat_reply(outcome: Result<&str, &str>) -> (r: String)
    ensures
        r@ == match outcome {
            Ok(user) => "✅ 微信已连接（"@ + user@ + "），现在可以直接对话了。"@,
            Err(error) => "微信登录失败："@ + error@,
        },
{
    match outcome {
        Ok(user) => {
            let mut out = "✅ 微信已连接（".to_owned();
            out.push_str(user);
            out.push_str("），现在可以直接对话了。");
            out
        },
        Err(error) => {
            let mut out = "微信登录失败：".to_owned();
            out.push_str(error);
            out
        },
    }
}

/// How a turn ended.
#[derive(Debug)]
pub enum TurnEnd {
    Replied(String),
    Failed(String),
    Panicked,
}

/// The reply of a turn, however it ended: a bad turn never leaves the chat without one.
pub fn turn_reply(end: TurnEnd) -> (r: String)
    ensures
        r@ == match end {
            TurnEnd::Replied(t) => t@,
            TurnEnd::Failed(e) => "处理消息时出错了: "@ + e@,
            TurnEnd::Panicked => TURN_PANICKED@,
        },
{
    match end {
        TurnEnd::Replied(t) => t,
        TurnEnd::Failed(e) => {
            let mut out = "处理消息时出错了: ".to_owned();
            out.push_str(&e);
            out
        },
        TurnEnd::Panicked => TURN_PANICKED.to_owned(),
    }
}

} // verus!
