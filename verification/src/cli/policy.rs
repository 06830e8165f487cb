//! Showing and trying out the permission policy.
use crate::casing;
use crate::config::resolved::PolicyReport;
use crate::domain::approval::{ActionRef, ApprovalRequest, Risk};
use crate::domain::policy;
use crate::domain::policy::{Access, Category, Decision, Effect, Matcher, Policy, Rule, Verdict};
use crate::number;
use crate::path;
use crate::text;
use vstd::prelude::*;

verus! {

/// The word for a verdict.
pub open spec fn verdict_word(v: Verdict) -> Seq<char> {
    match v {
        Verdict::Allow => "allow"@,
        Verdict::Deny => "deny"@,
        Verdict::Ask => "ask"@,
    }
}

fn verdict_str(v: Verdict) -> (r: &'static str)
    ensures
        r@ == verdict_word(v),
{
    match v {
        Verdict::Allow => "allow",
        Verdict::Deny => "deny",
        Verdict::Ask => "ask",
    }
}

/// The word for a category.
pub open spec fn category_word(c: Category) -> Seq<char> {
    match c {
        Category::Shell => "shell"@,
        Category::File => "file"@,
        Category::Network => "network"@,
        Category::HomeAssistant => "homeassistant"@,
    }
}

fn category_str(c: Category) -> (r: &'static str)
    ensures
        r@ == category_word(c),
{
    match c {
        Category::Shell => "shell",
        Category::File => "file",
        Category::Network => "network",
        Category::HomeAssistant => "homeassistant",
    }
}

/// The word for a matcher.
pub open spec fn matcher_word(m: Matcher) -> Seq<char> {
    match m {
        Matcher::Prefix => "prefix"@,
        Matcher::Suffix => "suffix"@,
        Matcher::Exact => "exact"@,
        Matcher::Contains => "contains"@,
    }
}

fn matcher_str(m: Matcher) -> (r: &'static str)
    ensures
        r@ == matcher_word(m),
{
    match m {
        Matcher::Prefix => "prefix",
        Matcher::Suffix => "suffix",
        Matcher::Exact => "exact",
        Matcher::Contains => "contains",
    }
}

/// The parts of a rule's line.
pub open spec fn rule_parts(r: Rule) -> Seq<Seq<char>> {
    let first = seq![
        if r.effect == Effect::Allow {
            "allow"@
        } else {
            "deny "@
        },
        text::padded(category_word(r.category), 14),
        matcher_word(r.matcher) + " \""@ + r.value@ + "\""@,
    ];
    let second = match r.access {
        Some(Access::Read) => first.push("access=read"@),
        Some(Access::Write) => first.push("access=write"@),
        None => first,
    };
    let third = match r.channels {
        Some(c) => second.push("channels="@ + text::joined(text::views(c@), ","@)),
        None => second,
    };
    let fourth = if r.include_dangerous {
        third.push("include_dangerous"@)
    } else {
        third
    };
    if r.unattended {
        fourth.push("unattended"@)
    } else {
        fourth
    }
}

/// A rule on one line, in the shape of its configuration.
pub fn rule_str(r: &Rule) -> (s: String)
    ensures
        s@ == text::joined(rule_parts(*r), "  "@),
{
    let mut parts: Vec<String> = Vec::new();
    match r.effect {
        Effect::Allow => text::append_line(&mut parts, "allow".to_owned()),
        Effect::Deny => text::append_line(&mut parts, "deny ".to_owned()),
    }
    text::append_line(&mut parts, text::pad(category_str(r.category), 14));
    let mut m = matcher_str(r.matcher).to_owned();
    m.push_str(" \"");
    m.push_str(&r.value);
    m.push_str("\"");
    text::append_line(&mut parts, m);
    assert(text::views(parts@) =~= seq![
        if r.effect == Effect::Allow {
            "allow"@
        } else {
            "deny "@
        },
        text::padded(category_word(r.category), 14),
        m@,
    ]);
    match r.access {
        Some(Access::Read) => text::append_line(&mut parts, "access=read".to_owned()),
        Some(Access::Write) => text::append_line(&mut parts, "access=write".to_owned()),
        None => {},
    }
    if let Some(c) = &r.channels {
        let mut s = "channels=".to_owned();
        s.push_str(&text::join(c, ","));
        text::append_line(&mut parts, s);
    }
    if r.include_dangerous {
        text::append_line(&mut parts, "include_dangerous".to_owned());
    }
    if r.unattended {
        text::append_line(&mut parts, "unattended".to_owned());
    }
    text::join(&parts, "  ")
}

/// A rule's line in the listing, under its number.
pub open spec fn numbered(i: nat, r: Rule) -> Seq<char> {
    "  #"@ + number::decimal(i) + " "@ + text::joined(rule_parts(r), "  "@)
}

/// The numbers of the entries that were ignored.
pub open spec fn hashed(invalid: Seq<usize>) -> Seq<Seq<char>> {
    invalid.map_values(|i: usize| "#"@ + number::decimal(i as nat))
}

/// The listing of a policy.
pub open spec fn listing(
    configured: bool,
    rules: Seq<Rule>,
    default_normal: Verdict,
    invalid: Seq<usize>,
    home: Seq<char>,
) -> Seq<Seq<char>> {
    if !configured {
        seq![
            "No [policy] table in "@ + path::joined(home, "config.toml"@)
                + " — every Normal/Dangerous action asks interactively."@,
        ]
    } else {
        let head = seq![
            "default_normal: "@ + verdict_word(default_normal),
            "(Dangerous always asks unless a rule sets include_dangerous; Safe is deny-only)"@,
        ];
        let ruled = if rules.len() == 0 {
            head.push("\nno rules configured"@)
        } else {
            head.push("\nrules (deny rules always win over allow):"@) + Seq::new(
                rules.len(),
                |i: int| numbered(i as nat, rules[i]),
            )
        };
        if invalid.len() == 0 {
            ruled
        } else {
            ruled.push(
                "\n✗ "@ + number::decimal(invalid.len()) + " invalid [[policy.rule]] entr"@
                    + if invalid.len() == 1 {
                    "y"@
                } else {
                    "ies"@
                } + " ignored (config order: "@ + text::joined(hashed(invalid), ", "@) + ")"@,
            )
        }
    }
}

fn ignored_line(invalid: &Vec<usize>) -> (r: String)
    ensures
        r@ == "\n✗ "@ + number::decimal(invalid@.len()) + " invalid [[policy.rule]] entr"@
            + if invalid@.len() == 1 {
            "y"@
        } else {
            "ies"@
        } + " ignored (config order: "@ + text::joined(hashed(invalid@), ", "@) + ")"@,
{
    let ghost all = hashed(invalid@);
    let mut marks: Vec<String> = Vec::new();
    let mut i: usize = 0;
    assert(text::views(marks@) =~= all.take(0));
    while i < invalid.len()
        invariant
            i <= invalid.len(),
            all == hashed(invalid@),
            text::views(marks@) == all.take(i as int),
        decreases invalid.len() - i,
    {
        let mut m = "#".to_owned();
        m.push_str(&number::write_size(invalid[i]));
        text::append_line(&mut marks, m);
        i = i + 1;
        assert(text::views(marks@) =~= all.take(i as int));
    }
    assert(all.take(i as int) =~= all);
    let mut s = "\n✗ ".to_owned();
    s.push_str(&number::write_size(invalid.len()));
    s.push_str(" invalid [[policy.rule]] entr");
    if invalid.len() == 1 {
        s.push_str("y");
    } else {
        s.push_str("ies");
    }
    s.push_str(" ignored (config order: ");
    s.push_str(&text::join(&marks, ", "));
    s.push_str(")");
    s
}

/// The listing of the policy in force: defaults, rules in evaluation order, and the
/// entries that were ignored. The numbers are those that [`check`] cites.
pub fn list(report: &PolicyReport, home: &str) -> (r: Vec<String>)
    ensures
        text::views(r@) == listing(
            report.configured,
            report.policy.rule_list(),
            report.policy.normal_verdict(),
            report.invalid@,
            home@,
        ),
{
    let mut out: Vec<String> = Vec::new();
    assert(text::views(out@) =~= Seq::empty());
    if !report.configured {
        let mut s = "No [policy] table in ".to_owned();
        s.push_str(&path::join(home, "config.toml"));
        s.push_str(" — every Normal/Dangerous action asks interactively.");
        text::append_line(&mut out, s);
        assert(text::views(out@) =~= seq![s@]);
        return out;
    }
    let mut s = "default_normal: ".to_owned();
    s.push_str(verdict_str(report.policy.default_normal()));
    text::append_line(&mut out, s);
    text::append_line(
        &mut out,
        "(Dangerous always asks unless a rule sets include_dangerous; Safe is deny-only)".to_owned(),
    );
    let ghost head = seq![
        "default_normal: "@ + verdict_word(report.policy.normal_verdict()),
        "(Dangerous always asks unless a rule sets include_dangerous; Safe is deny-only)"@,
    ];
    assert(text::views(out@) =~= head);
    let rules = report.policy.rules();
    if rules.len() == 0 {
        text::append_line(&mut out, "\nno rules configured".to_owned());
    } else {
        text::append_line(&mut out, "\nrules (deny rules always win over allow):".to_owned());
        let ghost titled = head.push("\nrules (deny rules always win over allow):"@);
        let ghost all = Seq::new(rules@.len(), |i: int| numbered(i as nat, rules@[i]));
        let mut i: usize = 0;
        assert(text::views(out@) =~= titled + all.take(0));
        while i < rules.len()
            invariant
                i <= rules@.len(),
                rules@.len() == rules.len(),
                all == Seq::new(rules@.len(), |i: int| numbered(i as nat, rules@[i])),
                text::views(out@) == titled + all.take(i as int),
            decreases rules.len() - i,
        {
            let mut s = "  #".to_owned();
            s.push_str(&number::write_size(i));
            s.push_str(" ");
            s.push_str(&rule_str(&rules[i]));
            text::append_line(&mut out, s);
            i = i + 1;
            assert(text::views(out@) =~= titled + all.take(i as int));
        }
        assert(all.take(i as int) =~= all);
    }
    if report.invalid.len() > 0 {
        text::append_line(&mut out, ignored_line(&report.invalid));
    }
    out
}

/// What is tried out: the action and the risk that the real tools attach to it.
pub open spec fn is_trial(
    cat: Category,
    target: Seq<char>,
    dangerous: bool,
    write: bool,
    action: ActionRef,
    risk: Risk,
) -> bool {
    match cat {
        Category::Shell => {
            &&& action matches ActionRef::Shell { command }
            &&& command@ == target
            &&& risk == if dangerous {
                Risk::Dangerous
            } else {
                Risk::Normal
            }
        },
        Category::File => {
            &&& action matches ActionRef::File { path, write: w }
            &&& path@ == target && w == write
            &&& risk == if write {
                Risk::Normal
            } else {
                Risk::Safe
            }
        },
        Category::Network => {
            &&& action matches ActionRef::Network { url }
            &&& url@ == target
            &&& risk == Risk::Safe
        },
        Category::HomeAssistant => {
            &&& action matches ActionRef::Service { domain, service }
            &&& text::cut_at(target, "."@) == Some((domain@, service@))
            &&& risk == Risk::Normal
        },
    }
}

/// What is tried out; none for a Home Assistant target without a dot.
fn trial(cat: Category, target: &str, dangerous: bool, write: bool) -> (r: Option<
    (ActionRef, Risk),
>)
    ensures
        match r {
            Some((action, risk)) => is_trial(cat, target@, dangerous, write, action, risk),
            None => cat == Category::HomeAssistant && text::cut_at(target@, "."@) is None,
        },
{
    match cat {
        Category::Shell => {
            let risk = if dangerous {
                Risk::Dangerous
            } else {
                Risk::Normal
            };
            Some((ActionRef::Shell { command: target.to_owned() }, risk))
        },
        Category::File => {
            let risk = if write {
                Risk::Normal
            } else {
                Risk::Safe
            };
            Some((ActionRef::File { path: target.to_owned(), write }, risk))
        },
        Category::Network => Some((ActionRef::Network { url: target.to_owned() }, Risk::Safe)),
        Category::HomeAssistant => match text::split_once(target, ".") {
            Some((domain, service)) => Some(
                (
                    ActionRef::Service { domain: domain.to_owned(), service: service.to_owned() },
                    Risk::Normal,
                ),
            ),
            None => None,
        },
    }
}

/// How a risk reads.
pub open spec fn risk_text(risk: Risk) -> Seq<char> {
    match risk {
        Risk::Safe => "safe (read-only)"@,
        Risk::Normal => "normal"@,
        Risk::Dangerous => "dangerous"@,
    }
}

/// The first column of a line of a trial.
pub open spec fn column(label: Seq<char>) -> Seq<char> {
    text::padded(label + ":"@, 9)
}

fn write_column(label: &str) -> (r: String)
    ensures
        r@ == column(label@),
{
    text::pad(&text::prefixed(label, ":"), 9)
}

/// The first line of a trial.
pub open spec fn trial_line(
    category: Seq<char>,
    target: Seq<char>,
    risk: Risk,
    channel: Option<Seq<char>>,
) -> Seq<char> {
    let head = column("action"@) + category + " "@ + target + "  [risk: "@ + risk_text(risk);
    match channel {
        Some(c) => head + ", channel: "@ + c + "]"@,
        None => head + ", no session (unattended context)"@ + "]"@,
    }
}

/// The line that cites a rule.
pub open spec fn cited(rules: Seq<Rule>, i: int) -> Seq<char> {
    column("matched"@) + "#"@ + number::decimal(i as nat) + " "@ + text::joined(rule_parts(rules[i]), "  "@)
}

/// The line that says what was decided and what that means.
pub open spec fn decided(word: Seq<char>, meaning: Seq<char>) -> Seq<char> {
    column("verdict"@) + word + " — "@ + meaning
}

fn write_decided(word: &str, meaning: &str) -> (r: String)
    ensures
        r@ == decided(word@, meaning@),
{
    let mut s = write_column("verdict");
    s.push_str(word);
    s.push_str(" — ");
    s.push_str(meaning);
    s
}

/// What a decision means.
pub open spec fn explained(rules: Seq<Rule>, d: Decision, risk: Risk) -> Seq<Seq<char>> {
    match (d.verdict, d.rule) {
        (Verdict::Deny, Some(i)) => seq![
            decided("DENY"@, "hard-blocked, no prompt"@),
            cited(rules, i as int),
        ],
        (Verdict::Allow, Some(i)) => seq![
            decided("ALLOW"@, "auto-allowed inside a session turn (no prompt)"@),
            cited(rules, i as int),
            column("note"@) + "with no session in scope (sweep/aux), this still falls to ask → deny"@,
        ],
        (Verdict::Allow, None) => if risk == Risk::Safe {
            seq![
                decided("ALLOW"@, "read-only action, no deny rule matches (deny-only evaluation)"@),
                column("note"@) + "allow rules never apply to safe actions; only a deny rule can block this"@,
            ]
        } else {
            seq![decided("ALLOW"@, "default_normal = allow (no rule matched)"@)]
        },
        (Verdict::Ask, _) => {
            let head = seq![
                decided("ASK"@, "escalates to interactive approval (/approve in chat, y/N at the CLI)"@),
            ];
            if risk == Risk::Dangerous {
                head.push(
                    column("note"@) + "dangerous actions auto-allow only via a rule with include_dangerous = true"@,
                )
            } else {
                head
            }
        },
        (Verdict::Deny, None) => seq![
            decided("DENY"@, "default_normal = deny (no rule matched)"@),
        ],
    }
}

fn cite(rules: &[Rule], i: usize) -> (r: String)
    requires
        i < rules@.len(),
    ensures
        r@ == cited(rules@, i as int),
{
    let mut s = write_column("matched");
    s.push_str("#");
    s.push_str(&number::write_size(i));
    s.push_str(" ");
    s.push_str(&rule_str(&rules[i]));
    s
}

/// What a decision means, one line after the other.
pub fn explain(rules: &[Rule], d: &Decision, risk: Risk) -> (r: Vec<String>)
    requires
        d.rule matches Some(i) ==> i < rules@.len(),
    ensures
        text::views(r@) == explained(rules@, *d, risk),
{
    let mut out: Vec<String> = Vec::new();
    assert(text::views(out@) =~= Seq::empty());
    match (d.verdict, d.rule) {
        (Verdict::Deny, Some(i)) => {
            text::append_line(&mut out, write_decided("DENY", "hard-blocked, no prompt"));
            text::append_line(&mut out, cite(rules, i));
        },
        (Verdict::Allow, Some(i)) => {
            text::append_line(
                &mut out,
                write_decided("ALLOW", "auto-allowed inside a session turn (no prompt)"),
            );
            text::append_line(&mut out, cite(rules, i));
            text::append_line(
                &mut out,
                text::prefixed(&write_column("note"), "with no session in scope (sweep/aux), this still falls to ask → deny"),
            );
        },
        (Verdict::Allow, None) => {
            if risk == Risk::Safe {
                text::append_line(
                    &mut out,
                    write_decided("ALLOW", "read-only action, no deny rule matches (deny-only evaluation)"),
                );
                text::append_line(
                    &mut out,
                    text::prefixed(&write_column("note"), "allow rules never apply to safe actions; only a deny rule can block this"),
                );
            } else {
                text::append_line(
                    &mut out,
                    write_decided("ALLOW", "default_normal = allow (no rule matched)"),
                );
            }
        },
        (Verdict::Ask, _) => {
            text::append_line(
                &mut out,
                write_decided("ASK", "escalates to interactive approval (/approve in chat, y/N at the CLI)"),
            );
            if risk == Risk::Dangerous {
                text::append_line(
                    &mut out,
                    text::prefixed(&write_column("note"), "dangerous actions auto-allow only via a rule with include_dangerous = true"),
                );
            }
        },
        (Verdict::Deny, None) => {
            text::append_line(
                &mut out,
                write_decided("DENY", "default_normal = deny (no rule matched)"),
            );
        },
    }
    assert(text::views(out@) =~= explained(rules@, *d, risk));
    out
}

/// Whether `lines` is what a trial of an action shows: the action, what the policy
/// decides of it, and why.
pub open spec fn is_check(
    p: Policy,
    category: Seq<char>,
    cat: Category,
    target: Seq<char>,
    channel: Option<Seq<char>>,
    dangerous: bool,
    write: bool,
    lines: Seq<Seq<char>>,
) -> bool {
    exists|action: ActionRef, risk: Risk, d: Decision|
        {
            &&& #[trigger] is_trial(cat, target, dangerous, write, action, risk)
            &&& #[trigger] d.is_outcome(
                policy::outcome(
                    p.rule_list(),
                    p.normal_verdict(),
                    Some(policy::aim_of(action)),
                    risk,
                    channel,
                ),
            )
            &&& lines == seq![trial_line(category, target, risk, channel)] + explained(
                p.rule_list(),
                d,
                risk,
            )
        }
}

/// Tries one action on a policy and explains the outcome: what it says is what a turn
/// would do.
pub fn check(
    p: &Policy,
    category: &str,
    target: &str,
    channel: Option<&str>,
    dangerous: bool,
    write: bool,
) -> (r: Result<Vec<String>, String>)
    ensures
        match Category::named(casing::lowercase(text::trimmed(category@))) {
            None => r matches Err(e) && e@ == "unknown category `"@ + category@
                + "` (expected shell | file | network | homeassistant)"@,
            Some(cat) => if cat == Category::HomeAssistant && text::cut_at(
                target@,
                "."@,
            ) is None {
                r matches Err(e) && e@
                    == "homeassistant target must be `domain.service` (e.g. light.turn_on)"@
            } else {
                r matches Ok(lines) && is_check(
                    *p,
                    category@,
                    cat,
                    target@,
                    text::opt_view(channel),
                    dangerous,
                    write,
                    text::views(lines@),
                )
            },
        },
{
    let cat = match Category::parse(category) {
        Some(cat) => cat,
        None => {
            let mut e = "unknown category `".to_owned();
            e.push_str(category);
            e.push_str("` (expected shell | file | network | homeassistant)");
            return Err(e);
        },
    };
    let (action, risk) = match trial(cat, target, dangerous, write) {
        Some(t) => t,
        None => return Err(
            "homeassistant target must be `domain.service` (e.g. light.turn_on)".to_owned(),
        ),
    };
    let ghost tried = action;
    let mut summary = "check ".to_owned();
    summary.push_str(category);
    summary.push_str(" ");
    summary.push_str(target);
    let mut request = ApprovalRequest::normal(&summary);
    request.risk = risk;
    let request = request.with_action(action);
    let d = p.decide(&request, channel);
    proof {
        policy::cited_rule_is_real(
            p.rule_list(),
            p.normal_verdict(),
            policy::aim_of(tried),
            risk,
            text::opt_view(channel),
        );
    }
    let mut first = write_column("action");
    first.push_str(category);
    first.push_str(" ");
    first.push_str(target);
    first.push_str("  [risk: ");
    match risk {
        Risk::Safe => first.push_str("safe (read-only)"),
        Risk::Normal => first.push_str("normal"),
        Risk::Dangerous => first.push_str("dangerous"),
    }
    match channel {
        Some(c) => {
            first.push_str(", channel: ");
            first.push_str(c);
        },
        None => first.push_str(", no session (unattended context)"),
    }
    first.push_str("]");
    let mut out: Vec<String> = Vec::new();
    text::append_line(&mut out, first);
    assert(text::views(out@) =~= seq![
        trial_line(category@, target@, risk, text::opt_view(channel)),
    ]);
    text::append_lines(&mut out, explain(p.rules(), &d, risk));
    assert(is_trial(cat, target@, dangerous, write, tried, risk));
    assert(d.is_outcome(
        policy::outcome(
            p.rule_list(),
            p.normal_verdict(),
            Some(policy::aim_of(tried)),
            risk,
            text::opt_view(channel),
        ),
    ));
    Ok(out)
}

} // verus!
