//! The operator's view of a dream cycle.
use crate::number;
use crate::text;
use vstd::prelude::*;

verus! {

/// How many lines a bucket shows.
pub const BUCKET_CAP: usize = 20;

/// A memory that a cycle would change.
#[derive(Debug)]
pub struct DreamItem {
    pub id: String,
    pub recall_count: i64,
    pub unique_queries: u32,
    /// The score that drove the verdict, to two decimals.
    pub score: String,
    pub content: String,
}

/// What a cycle would do.
#[derive(Debug)]
pub struct DreamReport {
    pub promote: Vec<DreamItem>,
    pub archive: Vec<DreamItem>,
}

/// An item's line.
pub open spec fn item_line(m: DreamItem) -> Seq<char> {
    "  "@ + m.id@ + "  [recalls="@ + number::signed(m.recall_count as int) + " queries="@
        + number::decimal(m.unique_queries as nat) + " score="@ + m.score@ + "]  "@ + m.content@
}

fn line_of(m: &DreamItem) -> (r: String)
    ensures
        r@ == item_line(*m),
{
    let mut s = text::prefixed("  ", &m.id);
    s.push_str("  [recalls=");
    s.push_str(&number::write_signed(m.recall_count));
    s.push_str(" queries=");
    s.push_str(&number::write_unsigned(m.unique_queries as u64));
    s.push_str(" score=");
    s.push_str(&m.score);
    s.push_str("]  ");
    s.push_str(&m.content);
    s
}

/// A bucket: its size and a sample of its lines; nothing for an empty one.
pub open spec fn bucket(label: Seq<char>, items: Seq<DreamItem>) -> Seq<Seq<char>> {
    if items.len() == 0 {
        Seq::empty()
    } else {
        seq!["\n"@ + label + ": "@ + number::decimal(items.len())] + Seq::new(
            text::head_len(items.len(), BUCKET_CAP as nat),
            |i: int| item_line(items[i]),
        ) + text::one_if(
            items.len() > BUCKET_CAP,
            "  … and "@ + number::decimal((items.len() - BUCKET_CAP) as nat) + " more"@,
        )
    }
}

/// A bucket: its size and a sample of its lines.
pub fn report_bucket(label: &str, items: &Vec<DreamItem>) -> (r: Vec<String>)
    ensures
        text::views(r@) == bucket(label@, items@),
{
    if items.len() == 0 {
        let out: Vec<String> = Vec::new();
        assert(text::views(out@) =~= Seq::empty());
        return out;
    }
    let mut head = text::between("\n", label, ": ");
    head.push_str(&number::write_size(items.len()));
    let ghost first = seq![head@];
    let mut out = text::only(head);
    let limit: usize = if items.len() < BUCKET_CAP {
        items.len()
    } else {
        BUCKET_CAP
    };
    let ghost all = Seq::new(limit as nat, |i: int| item_line(items@[i]));
    let mut i: usize = 0;
    assert(text::views(out@) =~= first + all.take(0));
    while i < limit
        invariant
            i <= limit <= items.len(),
            all == Seq::new(limit as nat, |i: int| item_line(items@[i])),
            text::views(out@) == first + all.take(i as int),
        decreases limit - i,
    {
        text::append_line(&mut out, line_of(&items[i]));
        i = i + 1;
        assert(text::views(out@) =~= first + all.take(i as int));
    }
    assert(all.take(i as int) =~= all);
    if items.len() > BUCKET_CAP {
        let more = text::between(
            "  … and ",
            &number::write_size(items.len() - BUCKET_CAP),
            " more",
        );
        text::append_line(&mut out, more);
    }
    assert(text::views(out@) =~= bucket(label@, items@));
    out
}

/// What a dry run shows.
pub open spec fn preview_lines(report: DreamReport) -> Seq<Seq<char>> {
    bucket("promote → active (well-recalled candidates)"@, report.promote@) + bucket(
        "archive (old, gone cold)"@,
        report.archive@,
    )
}

/// What a run of the command shows before it changes anything, and whether it goes on to
/// apply the cycle: never in a dry run, and never with nothing to do.
pub fn preview(report: &DreamReport, apply: bool) -> (r: (Vec<String>, bool))
    ensures
        text::views(r.0@) == if report.promote@.len() == 0 && report.archive@.len() == 0 {
            seq!["Nothing to dream about — no candidate meets the promote or archive bar."@]
        } else {
            preview_lines(*report) + text::one_if(
                !apply,
                "\n(dry run — pass --apply to execute this cycle)"@,
            )
        },
        r.1 == (apply && (report.promote@.len() > 0 || report.archive@.len() > 0)),
{
    if report.promote.len() == 0 && report.archive.len() == 0 {
        return (
            text::only(
                "Nothing to dream about — no candidate meets the promote or archive bar.".to_owned(),
            ),
            false,
        );
    }
    let mut out = report_bucket("promote → active (well-recalled candidates)", &report.promote);
    text::append_lines(&mut out, report_bucket("archive (old, gone cold)", &report.archive));
    text::append_if(
        &mut out,
        !apply,
        "\n(dry run — pass --apply to execute this cycle)".to_owned(),
    );
    (out, apply)
}

/// What is said of an applied cycle.
pub fn applied(promoted: u64, archived: u64) -> (r: String)
    ensures
        r@ == "\nApplied: promoted "@ + number::decimal(promoted as nat) + ", archived "@
            + number::decimal(archived as nat) + "."@,
{
    let mut out = text::between(
        "\nApplied: promoted ",
        &number::write_unsigned(promoted),
        ", archived ",
    );
    out.push_str(&number::write_unsigned(archived));
    out.push_str(".");
    out
}

} // verus!
