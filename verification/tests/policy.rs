use komo::domain::approval::{ActionRef, ApprovalRequest, Risk};
use komo::domain::policy::{
    host_of, resource_of, Access, Category, Effect, Matcher, Policy, Rule, Verdict,
};

fn shell(cmd: &str, risk: Risk) -> ApprovalRequest {
    let mut req = ApprovalRequest::normal(&format!("run: {cmd}"));
    req.risk = risk;
    req.with_action(ActionRef::Shell {
        command: cmd.to_string(),
    })
}

fn file_write(path: &str) -> ApprovalRequest {
    ApprovalRequest::normal("write").with_action(ActionRef::File {
        path: path.to_string(),
        write: true,
    })
}

fn rule(category: Category, matcher: Matcher, value: &str, effect: Effect) -> Rule {
    Rule {
        channels: None,
        category,
        matcher,
        value: value.to_string(),
        access: None,
        effect,
        include_dangerous: false,
        unattended: false,
    }
}

#[test]
fn unattended_grants_only_through_an_explicit_unattended_rule() {
    let mut r = rule(Category::Shell, Matcher::Prefix, "curl ", Effect::Allow);
    // Plain allow: grants in a session, not unattended.
    let p = Policy::new(vec![r.clone()], Verdict::Ask);
    assert_eq!(
        p.decide(&shell("curl http://x", Risk::Normal), Some("cli"))
            .verdict,
        Verdict::Allow
    );
    assert_eq!(
        p.decide(&shell("curl http://x", Risk::Normal), None)
            .verdict,
        Verdict::Ask,
        "non-unattended allow must not grant without a session"
    );
    // Opt-in: grants unattended too.
    r.unattended = true;
    let p = Policy::new(vec![r], Verdict::Ask);
    let d = p.decide(&shell("curl http://x", Risk::Normal), None);
    assert_eq!(d.verdict, Verdict::Allow);
    assert_eq!(d.rule, Some(0));
}

#[test]
fn default_allow_never_grants_unattended() {
    let p = Policy::new(Vec::new(), Verdict::Allow);
    assert_eq!(
        p.decide(&shell("ls", Risk::Normal), Some("cli")).verdict,
        Verdict::Allow
    );
    assert_eq!(
        p.decide(&shell("ls", Risk::Normal), None).verdict,
        Verdict::Ask,
        "a default can never be an unattended grant"
    );
}

#[test]
fn safe_actions_get_deny_only_evaluation() {
    let net = |url: &str| {
        ApprovalRequest::safe("fetch").with_action(ActionRef::Network {
            url: url.to_string(),
        })
    };
    let p = Policy::new(
        vec![
            // An allow rule must be irrelevant to safe actions…
            rule(
                Category::Network,
                Matcher::Suffix,
                "github.com",
                Effect::Allow,
            ),
            rule(
                Category::Network,
                Matcher::Suffix,
                "internal.corp",
                Effect::Deny,
            ),
        ],
        // …and so must default_normal: even Deny leaves unmatched safe alone.
        Verdict::Deny,
    );
    let denied = p.decide(&net("https://api.internal.corp/x"), Some("cli"));
    assert_eq!(denied.verdict, Verdict::Deny);
    assert_eq!(denied.rule, Some(1));

    let unmatched = p.decide(&net("https://example.com"), Some("cli"));
    assert_eq!(unmatched.verdict, Verdict::Allow);
    assert_eq!(unmatched.rule, None);
}

#[test]
fn decide_reports_the_matching_rule_index() {
    let p = Policy::new(
        vec![
            rule(Category::Shell, Matcher::Prefix, "cargo ", Effect::Allow),
            rule(Category::Shell, Matcher::Prefix, "git ", Effect::Allow),
        ],
        Verdict::Ask,
    );
    let d = p.decide(&shell("git status", Risk::Normal), Some("cli"));
    assert_eq!(d.verdict, Verdict::Allow);
    assert_eq!(d.rule, Some(1));
}

#[test]
fn empty_policy_asks_for_normal_and_dangerous() {
    let p = Policy::default();
    assert_eq!(
        p.decide(&shell("ls", Risk::Normal), Some("cli")).verdict,
        Verdict::Ask
    );
    assert_eq!(
        p.decide(&shell("rm -rf x", Risk::Dangerous), Some("cli"))
            .verdict,
        Verdict::Ask
    );
}

#[test]
fn allow_rule_matches_command_prefix() {
    let p = Policy::new(
        vec![rule(
            Category::Shell,
            Matcher::Prefix,
            "cargo ",
            Effect::Allow,
        )],
        Verdict::Ask,
    );
    assert_eq!(
        p.decide(&shell("cargo build", Risk::Normal), Some("cli"))
            .verdict,
        Verdict::Allow
    );
    assert_eq!(
        p.decide(&shell("npm install", Risk::Normal), Some("cli"))
            .verdict,
        Verdict::Ask
    );
}

#[test]
fn deny_rule_beats_allow_regardless_of_order() {
    let p = Policy::new(
        vec![
            rule(Category::Shell, Matcher::Prefix, "git ", Effect::Allow),
            rule(Category::Shell, Matcher::Contains, "push", Effect::Deny),
        ],
        Verdict::Ask,
    );
    assert_eq!(
        p.decide(&shell("git push origin", Risk::Normal), Some("cli"))
            .verdict,
        Verdict::Deny
    );
}

#[test]
fn allow_rule_does_not_grant_dangerous_without_opt_in() {
    let p = Policy::new(
        vec![rule(Category::Shell, Matcher::Prefix, "rm ", Effect::Allow)],
        Verdict::Ask,
    );
    assert_eq!(
        p.decide(&shell("rm file", Risk::Dangerous), Some("cli"))
            .verdict,
        Verdict::Ask
    );

    let mut allow_dangerous = rule(Category::Shell, Matcher::Prefix, "rm ", Effect::Allow);
    allow_dangerous.include_dangerous = true;
    let p = Policy::new(vec![allow_dangerous], Verdict::Ask);
    assert_eq!(
        p.decide(&shell("rm file", Risk::Dangerous), Some("cli"))
            .verdict,
        Verdict::Allow
    );
}

#[test]
fn file_write_prefix_and_access_scope() {
    let mut r = rule(
        Category::File,
        Matcher::Prefix,
        "/home/me/proj",
        Effect::Allow,
    );
    r.access = Some(Access::Write);
    let p = Policy::new(vec![r], Verdict::Ask);
    assert_eq!(
        p.decide(&file_write("/home/me/proj/src/x.rs"), Some("cli"))
            .verdict,
        Verdict::Allow
    );
    assert_eq!(
        p.decide(&file_write("/etc/passwd"), Some("cli")).verdict,
        Verdict::Ask
    );
}

#[test]
fn channel_scope_limits_a_rule() {
    let mut r = rule(Category::Shell, Matcher::Prefix, "cargo ", Effect::Allow);
    r.channels = Some(vec!["cli".to_string()]);
    let p = Policy::new(vec![r], Verdict::Ask);
    assert_eq!(
        p.decide(&shell("cargo build", Risk::Normal), Some("cli"))
            .verdict,
        Verdict::Allow
    );
    assert_eq!(
        p.decide(&shell("cargo build", Risk::Normal), Some("feishu"))
            .verdict,
        Verdict::Ask
    );
    // No session in scope → a channel-scoped rule never matches.
    assert_eq!(
        p.decide(&shell("cargo build", Risk::Normal), None).verdict,
        Verdict::Ask
    );
}

#[test]
fn network_suffix_matches_on_dot_boundary() {
    let net = |url: &str| {
        ApprovalRequest::normal("fetch").with_action(ActionRef::Network {
            url: url.to_string(),
        })
    };
    let p = Policy::new(
        vec![rule(
            Category::Network,
            Matcher::Suffix,
            "github.com",
            Effect::Allow,
        )],
        Verdict::Ask,
    );
    assert_eq!(
        p.decide(&net("https://api.github.com/repos"), Some("cli"))
            .verdict,
        Verdict::Allow
    );
    assert_eq!(
        p.decide(&net("https://github.com"), Some("cli")).verdict,
        Verdict::Allow
    );
    // Not a real subdomain — must not match.
    assert_eq!(
        p.decide(&net("https://evilgithub.com"), Some("cli"))
            .verdict,
        Verdict::Ask
    );
}

#[test]
fn default_normal_can_deny() {
    let p = Policy::new(Vec::new(), Verdict::Deny);
    assert_eq!(
        p.decide(&shell("ls", Risk::Normal), Some("feishu")).verdict,
        Verdict::Deny
    );
    // Dangerous still asks regardless of default_normal.
    assert_eq!(
        p.decide(&shell("rm x", Risk::Dangerous), Some("feishu"))
            .verdict,
        Verdict::Ask
    );
}

#[test]
fn hosts_lose_scheme_port_and_case() {
    assert_eq!(host_of("https://API.GitHub.com:443/x?y#z"), "api.github.com");
    assert_eq!(host_of("example.org?q"), "example.org");
    assert_eq!(host_of(""), "");
}

#[test]
fn words_of_the_configuration_parse() {
    assert_eq!(Category::parse(" Shell "), Some(Category::Shell));
    assert_eq!(Category::parse("homeassistant"), Some(Category::HomeAssistant));
    assert_eq!(Category::parse("disk"), None);
    assert_eq!(Matcher::parse("EXACT"), Some(Matcher::Exact));
    assert_eq!(Matcher::parse("glob"), None);
    assert_eq!(Access::parse("write"), Some(Access::Write));
    assert_eq!(Access::parse("rw"), None);
    assert_eq!(Effect::parse("deny"), Some(Effect::Deny));
    assert_eq!(Effect::parse("maybe"), None);
    assert_eq!(Verdict::parse_default("ask"), Some(Verdict::Ask));
    assert_eq!(Verdict::parse_default("sometimes"), None);
}

#[test]
fn order_of_rules_does_not_change_the_verdict() {
    let a = rule(Category::Shell, Matcher::Prefix, "git ", Effect::Allow);
    let d = rule(Category::Shell, Matcher::Contains, "push", Effect::Deny);
    let one = Policy::new(vec![a.clone(), d.clone()], Verdict::Ask);
    let two = Policy::new(vec![d, a], Verdict::Ask);
    for cmd in ["git push", "git pull", "ls"] {
        let req = shell(cmd, Risk::Normal);
        assert_eq!(
            one.decide(&req, Some("cli")).verdict,
            two.decide(&req, Some("cli")).verdict
        );
    }
}

#[test]
fn a_request_without_an_action_matches_no_rule() {
    let p = Policy::new(
        vec![rule(Category::Shell, Matcher::Contains, "", Effect::Deny)],
        Verdict::Allow,
    );
    let d = p.decide(&ApprovalRequest::normal("anything"), Some("cli"));
    assert_eq!(d.verdict, Verdict::Allow);
    assert_eq!(d.rule, None);
}

#[test]
fn service_actions_are_matched_by_their_name() {
    let r = resource_of(&ActionRef::Service {
        domain: "lock".into(),
        service: "unlock".into(),
    });
    assert_eq!(r.category, Category::HomeAssistant);
    assert_eq!(r.target, "lock.unlock");
}
