//! The pairing gate that channels consult before handing a message to the agent.
use crate::domain::pairing::{PairingStatus, PAIRING_CODE_TTL_SECS};
use crate::text;
use vstd::prelude::*;

verus! {

/// Whether one inbound message comes through.
#[derive(Debug)]
pub enum Gate {
    Allowed,
    /// Not paired: do not run the agent; send `reply` back instead.
    Denied { reply: String },
}

/// What is on file for a sender who has asked to be paired.
#[derive(Debug)]
pub struct KnownSender {
    pub code: String,
    pub status: PairingStatus,
    pub created_at: i64,
}

impl KnownSender {
    /// Whether the code on file has outlived its time.
    pub open spec fn lapsed(self, now: i64) -> bool {
        self.status == PairingStatus::Pending && now - self.created_at > PAIRING_CODE_TTL_SECS
    }
}

/// Whether the message comes through, or that a fresh code has to be minted first.
#[derive(Debug)]
pub enum GateStep {
    Decided(Gate),
    /// First contact, or the previous code expired.
    Mint,
}

/// The pairing gate of one platform.
#[derive(Debug)]
pub struct PairingGuard {
    platform: &'static str,
    allow_from: Vec<String>,
}

/// The reply that tells a sender how to pair.
pub open spec fn prompt_text(code: Seq<char>) -> Seq<char> {
    "此账号尚未与 shion 配对。配对码: "@ + code
        + "\n请在 shion 所在主机上运行: shion pair approve "@ + code
        + "\n配对完成后再发消息即可对话。"@
}

/// The reply that tells a sender how to pair.
pub fn prompt(code: &str) -> (r: String)
    ensures
        r@ == prompt_text(code@),
{
    let mut out = "此账号尚未与 shion 配对。配对码: ".to_owned();
    out.push_str(code);
    out.push_str("\n请在 shion 所在主机上运行: shion pair approve ");
    out.push_str(code);
    out.push_str("\n配对完成后再发消息即可对话。");
    out
}

impl PairingGuard {
    /// The senders who are trusted without pairing.
    pub closed spec fn trusted(self) -> Seq<Seq<char>> {
        text::views(self.allow_from@)
    }

    /// The platform whose gate this is.
    pub closed spec fn platform_name(self) -> Seq<char> {
        self.platform@
    }

    pub fn new(platform: &'static str, allow_from: Vec<String>) -> (r: Self)
        ensures
            r.platform_name() == platform@,
            r.trusted() == text::views(allow_from@),
    {
        PairingGuard { platform, allow_from }
    }

    /// Whether the sender needs no look at what is on file.
    pub fn pre_trusted(&self, sender_id: &str) -> (r: bool)
        ensures
            r == self.trusted().contains(sender_id@),
    {
        text::listed(&self.allow_from, sender_id)
    }

    /// Whether a message of `sender_id` comes through, given what is on file for them. The
    /// checks run in this order: trusted by configuration, approved, waiting with
    /// a code that still holds, and last a fresh code.
    pub fn check(&self, sender_id: &str, found: &Option<KnownSender>, now: i64) -> (r: GateStep)
        ensures
            match r {
                GateStep::Decided(Gate::Allowed) => self.trusted().contains(sender_id@) || (found
                    is Some && found->0.status == PairingStatus::Approved),
                GateStep::Decided(Gate::Denied { reply }) => {
                    &&& !self.trusted().contains(sender_id@)
                    &&& found is Some
                    &&& found->0.status == PairingStatus::Pending
                    &&& !found->0.lapsed(now)
                    &&& reply@ == prompt_text(found->0.code@)
                },
                GateStep::Mint => {
                    &&& !self.trusted().contains(sender_id@)
                    &&& found is None || found->0.lapsed(now)
                },
            },
    {
        if self.pre_trusted(sender_id) {
            return GateStep::Decided(Gate::Allowed);
        }
        match found {
            Some(p) => {
                if p.status == PairingStatus::Approved {
                    GateStep::Decided(Gate::Allowed)
                } else if now as i128 - p.created_at as i128 > PAIRING_CODE_TTL_SECS as i128 {
                    GateStep::Mint
                } else {
                    GateStep::Decided(Gate::Denied { reply: prompt(&p.code) })
                }
            },
            None => GateStep::Mint,
        }
    }

    /// What the sender is told once a fresh code has been minted and kept.
    pub fn minted(&self, code: &str) -> (r: Gate)
        ensures
            r is Denied,
            r->reply@ == prompt_text(code@),
    {
        Gate::Denied { reply: prompt(code) }
    }
}

} // verus!
