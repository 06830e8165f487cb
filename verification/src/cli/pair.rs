//! Pairing from the host.
use crate::agent::dispatcher;
use crate::agent::dispatcher::write_minutes;
use crate::agent::schedule;
use crate::agent::schedule::local_stamp;
use crate::domain::pairing::ApproveOutcome;
use crate::number;
use crate::text;
use vstd::prelude::*;

verus! {

/// A pairing as the operator sees it.
#[derive(Debug)]
pub struct PairingView {
    pub id: String,
    /// `approved`, `pending` or `expired`.
    pub status: String,
    pub created_at: i64,
}

/// A pairing's line, where `at` is how its creation reads.
pub open spec fn pairing_line(p: PairingView, at: Seq<char>) -> Seq<char> {
    if p.status@ == "approved"@ {
        p.id@ + "  [approved]  since "@ + at
    } else {
        p.id@ + "  ["@ + p.status@ + "]  requested "@ + at
    }
}

/// Whether `line` is the line of a pairing for some reading of its time.
pub open spec fn is_pairing_line(p: PairingView, line: Seq<char>) -> bool {
    exists|at: Seq<char>|
        schedule::is_local_stamp(p.created_at, at) && line == #[trigger] pairing_line(p, at)
}

/// A pairing's line, where `at` is how its creation reads.
pub fn line_of_pairing(p: &PairingView, at: &str) -> (r: String)
    ensures
        r@ == pairing_line(*p, at@),
{
    let mut out = p.id.clone();
    if text::same(&p.status, "approved") {
        out.push_str("  [approved]  since ");
    } else {
        out.push_str("  [");
        out.push_str(&p.status);
        out.push_str("]  requested ");
    }
    out.push_str(at);
    out
}

/// The pairings, times on the machine's own wall clock. Codes are not among them: they
/// are stored only as digests.
pub fn list(pairings: &Vec<PairingView>) -> (r: Vec<String>)
    ensures
        pairings@.len() == 0 ==> text::views(r@) == seq![
            "No pairings. Unknown senders get a code on first contact."@,
        ],
        pairings@.len() > 0 ==> r@.len() == pairings@.len() && forall|k: int|
            0 <= k < r@.len() ==> is_pairing_line(pairings@[k], (#[trigger] r@[k])@),
{
    let mut out: Vec<String> = Vec::new();
    if pairings.len() == 0 {
        text::append_line(
            &mut out,
            "No pairings. Unknown senders get a code on first contact.".to_owned(),
        );
        assert(text::views(out@) =~= seq![
            "No pairings. Unknown senders get a code on first contact."@,
        ]);
        return out;
    }
    let mut j: usize = 0;
    while j < pairings.len()
        invariant
            j <= pairings.len(),
            out@.len() == j,
            forall|k: int|
                0 <= k < j ==> is_pairing_line(pairings@[k], (#[trigger] out@[k])@),
        decreases pairings.len() - j,
    {
        let at = local_stamp(pairings[j].created_at);
        let line = line_of_pairing(&pairings[j], &at);
        text::append_line(&mut out, line);
        assert(out@[j as int]@ == pairing_line(pairings@[j as int], at@));
        j = j + 1;
    }
    out
}

/// What is said of an approval, where `code` is the code that was looked up.
pub fn approve(code: &str, outcome: &ApproveOutcome) -> (r: Result<String, String>)
    ensures
        match *outcome {
            ApproveOutcome::Approved(req) => r matches Ok(s) && s@ == "Paired "@ + req.id@
                + " — they can chat now."@,
            ApproveOutcome::NotFound => r matches Err(e) && e@
                == "no approvable pairing with code "@ + code@
                + " — unknown or expired (see `komo pair list`)"@,
            ApproveOutcome::Locked { retry_after_secs } => r matches Err(e) && e@
                == "too many failed attempts — approve is locked for "@ + number::signed(
                dispatcher::minutes(retry_after_secs as int),
            ) + " more minutes"@,
        },
{
    match outcome {
        ApproveOutcome::Approved(req) => {
            let mut out = "Paired ".to_owned();
            out.push_str(&req.id);
            out.push_str(" — they can chat now.");
            Ok(out)
        },
        ApproveOutcome::NotFound => {
            let mut out = "no approvable pairing with code ".to_owned();
            out.push_str(code);
            out.push_str(" — unknown or expired (see `komo pair list`)");
            Err(out)
        },
        ApproveOutcome::Locked { retry_after_secs } => {
            let mut out = "too many failed attempts — approve is locked for ".to_owned();
            out.push_str(&write_minutes(*retry_after_secs));
            out.push_str(" more minutes");
            Err(out)
        },
    }
}

/// What is said of a revocation.
pub fn revoke(id: &str, revoked: bool) -> (r: String)
    ensures
        r@ == if revoked {
            "Revoked "@ + id@ + "."@
        } else {
            "No pairing "@ + id@ + " (see `komo pair list`)."@
        },
{
    if revoked {
        let mut out = "Revoked ".to_owned();
        out.push_str(id);
        out.push_str(".");
        out
    } else {
        let mut out = "No pairing ".to_owned();
        out.push_str(id);
        out.push_str(" (see `komo pair list`).");
        out
    }
}

} // verus!
