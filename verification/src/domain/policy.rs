//! Configurable permission policy: a pure rule engine that decides whether a
//! side-effecting action is allowed, denied, or put to the user.
//!
//! The policy sits above each tool's own hard limits: it can make approval
//! stricter than a tool's floor, never looser.
use crate::casing;
use crate::domain::approval::{ActionRef, ApprovalRequest, Risk};
use crate::text;
use vstd::prelude::*;
use vstd::string::*;

verus! {

/// The class of action a rule applies to.
#[derive(Debug, Clone, Copy, PartialEq, Eq, Structural)]
pub enum Category {
    Shell,
    File,
    Network,
    HomeAssistant,
}

impl Category {
    /// The category that a folded configuration word names.
    pub open spec fn named(word: Seq<char>) -> Option<Category> {
        if word == "shell"@ {
            Some(Category::Shell)
        } else if word == "file"@ {
            Some(Category::File)
        } else if word == "network"@ || word == "net"@ {
            Some(Category::Network)
        } else if word == "homeassistant"@ || word == "ha"@ {
            Some(Category::HomeAssistant)
        } else {
            None
        }
    }

    /// The category that an already trimmed and lower-cased word names.
    pub fn from_word(word: &str) -> (r: Option<Self>)
        ensures
            r == Category::named(word@),
    {
        if text::same(word, "shell") {
            Some(Category::Shell)
        } else if text::same(word, "file") {
            Some(Category::File)
        } else if text::same(word, "network") || text::same(word, "net") {
            Some(Category::Network)
        } else if text::same(word, "homeassistant") || text::same(word, "ha") {
            Some(Category::HomeAssistant)
        } else {
            None
        }
    }

    /// Parse a config string (`shell` / `file` / `network` / `homeassistant`),
    /// whatever its case and surrounding white space.
    pub fn parse(s: &str) -> (r: Option<Self>)
        ensures
            r == Category::named(casing::lowercase(text::trimmed(s@))),
    {
        Category::from_word(&text::trim(s).to_lowercase())
    }
}

/// How a rule's `value` is compared against the action's target.
#[derive(Debug, Clone, Copy, PartialEq, Eq, Structural)]
pub enum Matcher {
    Prefix,
    Suffix,
    Exact,
    Contains,
}

impl Matcher {
    /// The matcher that a folded configuration word names.
    pub open spec fn named(word: Seq<char>) -> Option<Matcher> {
        if word == "prefix"@ {
            Some(Matcher::Prefix)
        } else if word == "suffix"@ {
            Some(Matcher::Suffix)
        } else if word == "exact"@ {
            Some(Matcher::Exact)
        } else if word == "contains"@ {
            Some(Matcher::Contains)
        } else {
            None
        }
    }

    /// The matcher that an already trimmed and lower-cased word names.
    pub fn from_word(word: &str) -> (r: Option<Self>)
        ensures
            r == Matcher::named(word@),
    {
        if text::same(word, "prefix") {
            Some(Matcher::Prefix)
        } else if text::same(word, "suffix") {
            Some(Matcher::Suffix)
        } else if text::same(word, "exact") {
            Some(Matcher::Exact)
        } else if text::same(word, "contains") {
            Some(Matcher::Contains)
        } else {
            None
        }
    }

    /// Parse a config string, whatever its case and surrounding white space.
    pub fn parse(s: &str) -> (r: Option<Self>)
        ensures
            r == Matcher::named(casing::lowercase(text::trimmed(s@))),
    {
        Matcher::from_word(&text::trim(s).to_lowercase())
    }

    /// Whether `target` stands to `value` as the matcher says.
    pub open spec fn fits(self, value: Seq<char>, target: Seq<char>) -> bool {
        match self {
            Matcher::Prefix => text::has_prefix(target, value),
            Matcher::Suffix => text::has_suffix(target, value),
            Matcher::Exact => target == value,
            Matcher::Contains => text::has_part(target, value),
        }
    }

    /// Whether `target` stands to `value` as the matcher says.
    pub fn matches(&self, value: &str, target: &str) -> (r: bool)
        ensures
            r == self.fits(value@, target@),
    {
        match self {
            Matcher::Prefix => text::starts_with(target, value),
            Matcher::Suffix => text::ends_with(target, value),
            Matcher::Exact => text::same(target, value),
            Matcher::Contains => text::contains(target, value),
        }
    }
}

/// Filesystem access kind a `file` rule scopes to.
#[derive(Debug, Clone, Copy, PartialEq, Eq, Structural)]
pub enum Access {
    Read,
    Write,
}

impl Access {
    /// The access that a folded configuration word names.
    pub open spec fn named(word: Seq<char>) -> Option<Access> {
        if word == "read"@ {
            Some(Access::Read)
        } else if word == "write"@ {
            Some(Access::Write)
        } else {
            None
        }
    }

    /// The access that an already trimmed and lower-cased word names.
    pub fn from_word(word: &str) -> (r: Option<Self>)
        ensures
            r == Access::named(word@),
    {
        if text::same(word, "read") {
            Some(Access::Read)
        } else if text::same(word, "write") {
            Some(Access::Write)
        } else {
            None
        }
    }

    /// Parse a config string, whatever its case and surrounding white space.
    pub fn parse(s: &str) -> (r: Option<Self>)
        ensures
            r == Access::named(casing::lowercase(text::trimmed(s@))),
    {
        Access::from_word(&text::trim(s).to_lowercase())
    }
}

/// What a matching rule does.
#[derive(Debug, Clone, Copy, PartialEq, Eq, Structural)]
pub enum Effect {
    Allow,
    Deny,
}

impl Effect {
    /// The effect that a folded configuration word names.
    pub open spec fn named(word: Seq<char>) -> Option<Effect> {
        if word == "allow"@ {
            Some(Effect::Allow)
        } else if word == "deny"@ {
            Some(Effect::Deny)
        } else {
            None
        }
    }

    /// The effect that an already trimmed and lower-cased word names.
    pub fn from_word(word: &str) -> (r: Option<Self>)
        ensures
            r == Effect::named(word@),
    {
        if text::same(word, "allow") {
            Some(Effect::Allow)
        } else if text::same(word, "deny") {
            Some(Effect::Deny)
        } else {
            None
        }
    }

    /// Parse a config string, whatever its case and surrounding white space.
    pub fn parse(s: &str) -> (r: Option<Self>)
        ensures
            r == Effect::named(casing::lowercase(text::trimmed(s@))),
    {
        Effect::from_word(&text::trim(s).to_lowercase())
    }
}

/// The policy's decision for a request.
#[derive(Debug, Clone, Copy, PartialEq, Eq, Structural)]
pub enum Verdict {
    /// Auto-allow without prompting.
    Allow,
    /// Hard-deny without prompting.
    Deny,
    /// Escalate to the interactive approver.
    Ask,
}

impl Verdict {
    /// The verdict that a folded configuration word names.
    pub open spec fn named(word: Seq<char>) -> Option<Verdict> {
        if word == "ask"@ {
            Some(Verdict::Ask)
        } else if word == "deny"@ {
            Some(Verdict::Deny)
        } else if word == "allow"@ {
            Some(Verdict::Allow)
        } else {
            None
        }
    }

    /// The verdict that an already trimmed and lower-cased word names.
    pub fn from_word(word: &str) -> (r: Option<Self>)
        ensures
            r == Verdict::named(word@),
    {
        if text::same(word, "ask") {
            Some(Verdict::Ask)
        } else if text::same(word, "deny") {
            Some(Verdict::Deny)
        } else if text::same(word, "allow") {
            Some(Verdict::Allow)
        } else {
            None
        }
    }

    /// Parse the `default_normal` config value (`ask` / `deny` / `allow`).
    pub fn parse_default(s: &str) -> (r: Option<Self>)
        ensures
            r == Verdict::named(casing::lowercase(text::trimmed(s@))),
    {
        Verdict::from_word(&text::trim(s).to_lowercase())
    }
}

/// One policy rule.
#[derive(Debug)]
pub struct Rule {
    /// Channel scope (`feishu` / `telegram` / `cli` / …); `None` = all channels.
    pub channels: Option<Vec<String>>,
    pub category: Category,
    pub matcher: Matcher,
    pub value: String,
    /// `file`-only: restrict to reads or writes; `None` = either.
    pub access: Option<Access>,
    pub effect: Effect,
    /// Allow rules don't grant [`Risk::Dangerous`] actions unless this is set.
    pub include_dangerous: bool,
    /// Allow rules apply only within a session turn unless this is set. Deny
    /// rules ignore it: they hold everywhere.
    pub unattended: bool,
}

/// The channel names of a rule, or `None` when it holds on every channel.
pub open spec fn channel_names(c: Option<Vec<String>>) -> Option<Seq<Seq<char>>> {
    match c {
        Some(list) => Some(text::views(list@)),
        None => None,
    }
}

impl Clone for Rule {
    fn clone(&self) -> (r: Self)
        ensures
            r.same_rule(*self),
    {
        let channels = match &self.channels {
            Some(list) => Some(text::clone_list(list)),
            None => None,
        };
        Rule {
            channels,
            category: self.category,
            matcher: self.matcher,
            value: self.value.clone(),
            access: self.access,
            effect: self.effect,
            include_dangerous: self.include_dangerous,
            unattended: self.unattended,
        }
    }
}

/// What a rule is matched against: the class of the action, whether it writes
/// (of use for files only), and the text that stands for its target.
pub ghost struct Aim {
    pub category: Category,
    pub write: bool,
    pub target: Seq<char>,
}

/// `s` without the dots at its start.
pub open spec fn undotted(s: Seq<char>) -> Seq<char>
    decreases s.len(),
{
    if s.len() > 0 && s[0] == '.' {
        undotted(s.drop_first())
    } else {
        s
    }
}

/// `s` without the dots at its start.
fn trim_dots(s: &str) -> (r: String)
    ensures
        r@ == undotted(s@),
{
    let v = text::chars_of(s);
    let mut i: usize = 0;
    assert(v@.skip(0) =~= s@);
    while i < v.len() && v[i] == '.'
        invariant
            i <= v.len(),
            undotted(s@) == undotted(v@.skip(i as int)),
        decreases v.len() - i,
    {
        assert(v@.skip(i as int).drop_first() =~= v@.skip(i + 1));
        i = i + 1;
    }
    assert(v@.skip(i as int) =~= v@.subrange(i as int, v@.len() as int));
    text::string_of(&v, i, v.len())
}

impl Rule {
    /// Whether two rules hold the same values.
    pub open spec fn same_rule(self, other: Rule) -> bool {
        &&& channel_names(self.channels) == channel_names(other.channels)
        &&& self.category == other.category
        &&& self.matcher == other.matcher
        &&& self.value@ == other.value@
        &&& self.access == other.access
        &&& self.effect == other.effect
        &&& self.include_dangerous == other.include_dangerous
        &&& self.unattended == other.unattended
    }

    /// Whether the rule is in scope for `aim` on `channel`, its value aside.
    pub open spec fn in_scope(self, aim: Aim, channel: Option<Seq<char>>) -> bool {
        &&& self.category == aim.category
        &&& match channel_names(self.channels) {
            Some(allowed) => channel is Some && allowed.contains(channel->0),
            None => true,
        }
        &&& self.access is Some && aim.category == Category::File ==> (self.access
            == Some(Access::Write)) == aim.write
    }

    /// Whether the rule's value and matcher fit the target. A suffix of a host
    /// is matched on a dotted boundary, so that `github.com` does not also match
    /// `evilgithub.com`.
    pub open spec fn hits(self, aim: Aim) -> bool {
        if aim.category == Category::Network && self.matcher == Matcher::Suffix {
            let want = undotted(self.value@);
            aim.target == want || text::has_suffix(aim.target, "."@ + want)
        } else {
            self.matcher.fits(self.value@, aim.target)
        }
    }

    /// Whether the rule refuses `aim` on `channel`.
    pub open spec fn denies(self, aim: Aim, channel: Option<Seq<char>>) -> bool {
        self.effect == Effect::Deny && self.in_scope(aim, channel) && self.hits(aim)
    }

    /// Whether the rule grants `aim` at `risk` on `channel`: a dangerous action
    /// only when the rule says so, and without a session only when it is marked
    /// for unattended use.
    pub open spec fn grants(self, aim: Aim, risk: Risk, channel: Option<Seq<char>>) -> bool {
        &&& self.effect == Effect::Allow
        &&& self.in_scope(aim, channel)
        &&& self.hits(aim)
        &&& risk == Risk::Dangerous ==> self.include_dangerous
        &&& channel is None ==> self.unattended
    }

    /// Whether the rule is in scope for the resource on `channel`, its value
    /// aside.
    fn applies(&self, resource: &Resource, channel: Option<&str>) -> (r: bool)
        ensures
            r == self.in_scope(resource.aim(), text::opt_view(channel)),
    {
        if self.category != resource.category {
            return false;
        }
        if let Some(allowed) = &self.channels {
            match channel {
                Some(c) => {
                    if !text::listed(allowed, c) {
                        return false;
                    }
                },
                None => {
                    return false;
                },
            }
        }
        if resource.category == Category::File {
            if let Some(want) = self.access {
                if (want == Access::Write) != resource.write {
                    return false;
                }
            }
        }
        true
    }

    /// Whether the rule's value and matcher fit the resource's target.
    fn matches(&self, resource: &Resource) -> (r: bool)
        ensures
            r == self.hits(resource.aim()),
    {
        if resource.category == Category::Network && self.matcher == Matcher::Suffix {
            let want = trim_dots(&self.value);
            let mut dotted = ".".to_owned();
            dotted.push_str(&want);
            text::same(&resource.target, &want) || text::ends_with(&resource.target, &dotted)
        } else {
            self.matcher.matches(&self.value, &resource.target)
        }
    }
}

/// A verdict plus which rule produced it (`None` = fell through to a default).
/// The rule index is into the policy's rule list as configured.
#[derive(Debug, Clone, Copy, PartialEq, Eq, Structural)]
pub struct Decision {
    pub verdict: Verdict,
    pub rule: Option<usize>,
}

/// What a rule is matched against, as values.
#[derive(Debug)]
pub struct Resource {
    pub category: Category,
    pub write: bool,
    pub target: String,
}

impl Resource {
    pub open spec fn aim(self) -> Aim {
        Aim { category: self.category, write: self.write, target: self.target@ }
    }
}

/// What follows the scheme of a URL, or the whole text when it has none.
pub open spec fn after_scheme(url: Seq<char>) -> Seq<char> {
    match text::cut_at(url, "://"@) {
        Some(sides) => sides.1,
        None => url,
    }
}

/// Whether `c` ends the host part of a URL.
pub open spec fn ends_host(c: char) -> bool {
    c == '/' || c == ':' || c == '?' || c == '#'
}

/// `s` up to the first character that ends a host.
pub open spec fn host_part(s: Seq<char>) -> Seq<char>
    decreases s.len(),
{
    if s.len() == 0 || ends_host(s[0]) {
        Seq::empty()
    } else {
        seq![s[0]] + host_part(s.drop_first())
    }
}

proof fn lemma_host_part(s: Seq<char>, n: int)
    requires
        0 <= n <= s.len(),
        forall|k: int| 0 <= k < n ==> !ends_host(s[k]),
        n < s.len() ==> ends_host(s[n]),
    ensures
        host_part(s) == s.take(n),
    decreases n,
{
    if n == 0 {
        assert(s.take(0) =~= Seq::<char>::empty());
    } else {
        let t = s.drop_first();
        assert forall|k: int| 0 <= k < n - 1 implies !ends_host(t[k]) by {
            assert(t[k] == s[k + 1]);
        }
        lemma_host_part(t, n - 1);
        assert(seq![s[0]] + t.take(n - 1) =~= s.take(n));
    }
}

/// The host named in a URL, in the case in which it is written: what stands
/// after the scheme, up to the first `/`, `:`, `?` or `#`.
pub fn raw_host(url: &str) -> (r: String)
    ensures
        r@ == host_part(after_scheme(url@)),
{
    let rest = match text::split_once(url, "://") {
        Some(sides) => sides.1,
        None => url,
    };
    let v = text::chars_of(rest);
    let mut n: usize = 0;
    while n < v.len() && !(v[n] == '/' || v[n] == ':' || v[n] == '?' || v[n] == '#')
        invariant
            n <= v.len(),
            forall|k: int| 0 <= k < n ==> !ends_host(v@[k]),
        decreases v.len() - n,
    {
        n = n + 1;
    }
    proof {
        lemma_host_part(v@, n as int);
        assert(v@.take(n as int) =~= v@.subrange(0, n as int));
    }
    text::string_of(&v, 0, n)
}

/// The lower-case host of a URL.
pub open spec fn host_text(url: Seq<char>) -> Seq<char> {
    casing::lowercase(host_part(after_scheme(url)))
}

/// The lower-case host of a URL.
pub fn host_of(url: &str) -> (r: String)
    ensures
        r@ == host_text(url@),
{
    raw_host(url).to_lowercase()
}

/// What the rules are matched against for an action.
pub open spec fn aim_of(action: ActionRef) -> Aim {
    match action {
        ActionRef::Shell { command } => Aim {
            category: Category::Shell,
            write: false,
            target: command@,
        },
        ActionRef::File { path, write } => Aim {
            category: Category::File,
            write,
            target: path@,
        },
        ActionRef::Network { url } => Aim {
            category: Category::Network,
            write: false,
            target: host_text(url@),
        },
        ActionRef::Service { domain, service } => Aim {
            category: Category::HomeAssistant,
            write: false,
            target: domain@ + "."@ + service@,
        },
    }
}

/// What the rules are matched against for an action.
pub fn resource_of(action: &ActionRef) -> (r: Resource)
    ensures
        r.aim() == aim_of(*action),
{
    match action {
        ActionRef::Shell { command } => Resource {
            category: Category::Shell,
            write: false,
            target: command.clone(),
        },
        ActionRef::File { path, write } => Resource {
            category: Category::File,
            write: *write,
            target: path.clone(),
        },
        ActionRef::Network { url } => Resource {
            category: Category::Network,
            write: false,
            target: host_of(url),
        },
        ActionRef::Service { domain, service } => {
            let mut target = domain.clone();
            target.push_str(".");
            target.push_str(service);
            Resource { category: Category::HomeAssistant, write: false, target }
        },
    }
}

/// A resolved permission policy: an ordered rule list plus the fallback verdict
/// for a [`Risk::Normal`] action that no rule matches.
#[derive(Debug)]
pub struct Policy {
    rules: Vec<Rule>,
    default_normal: Verdict,
}

/// The first rule, from `i` on, that denies.
pub open spec fn first_deny(
    rules: Seq<Rule>,
    aim: Aim,
    channel: Option<Seq<char>>,
    i: int,
) -> Option<int>
    decreases rules.len() - i,
{
    if i < 0 || i >= rules.len() {
        None
    } else if rules[i].denies(aim, channel) {
        Some(i)
    } else {
        first_deny(rules, aim, channel, i + 1)
    }
}

/// The first rule, from `i` on, that grants.
pub open spec fn first_grant(
    rules: Seq<Rule>,
    aim: Aim,
    risk: Risk,
    channel: Option<Seq<char>>,
    i: int,
) -> Option<int>
    decreases rules.len() - i,
{
    if i < 0 || i >= rules.len() {
        None
    } else if rules[i].grants(aim, risk, channel) {
        Some(i)
    } else {
        first_grant(rules, aim, risk, channel, i + 1)
    }
}

/// The verdict where no rule decides.
pub open spec fn fallback_verdict(
    default_normal: Verdict,
    risk: Risk,
    channel: Option<Seq<char>>,
) -> Verdict {
    match risk {
        Risk::Safe => Verdict::Allow,
        Risk::Normal => if channel is None && default_normal == Verdict::Allow {
            Verdict::Ask
        } else {
            default_normal
        },
        Risk::Dangerous => Verdict::Ask,
    }
}

/// What the policy decides: the verdict and the rule that gave it.
pub open spec fn outcome(
    rules: Seq<Rule>,
    default_normal: Verdict,
    aim: Option<Aim>,
    risk: Risk,
    channel: Option<Seq<char>>,
) -> (Verdict, Option<int>) {
    match aim {
        None => (fallback_verdict(default_normal, risk, channel), None),
        Some(a) => match first_deny(rules, a, channel, 0) {
            Some(i) => (Verdict::Deny, Some(i)),
            None => if risk == Risk::Safe {
                (Verdict::Allow, None)
            } else {
                match first_grant(rules, a, risk, channel, 0) {
                    Some(i) => (Verdict::Allow, Some(i)),
                    None => (fallback_verdict(default_normal, risk, channel), None),
                }
            },
        },
    }
}

impl Decision {
    /// Whether the decision is the given outcome.
    pub open spec fn is_outcome(self, o: (Verdict, Option<int>)) -> bool {
        &&& self.verdict == o.0
        &&& match self.rule {
            Some(i) => o.1 == Some(i as int),
            None => o.1 is None,
        }
    }

    fn fallback(verdict: Verdict) -> (r: Self)
        ensures
            r == (Decision { verdict, rule: None }),
    {
        Decision { verdict, rule: None }
    }
}

/// The resource that a request is matched on, if it names one.
pub open spec fn requested_aim(action: Option<ActionRef>) -> Option<Aim> {
    match action {
        Some(a) => Some(aim_of(a)),
        None => None,
    }
}

impl Policy {
    /// The configured rules, in evaluation order.
    pub closed spec fn rule_list(self) -> Seq<Rule> {
        self.rules@
    }

    /// The fallback verdict for an unmatched [`Risk::Normal`] action.
    pub closed spec fn normal_verdict(self) -> Verdict {
        self.default_normal
    }

    pub fn new(rules: Vec<Rule>, default_normal: Verdict) -> (r: Self)
        ensures
            r.rule_list() == rules@,
            r.normal_verdict() == default_normal,
    {
        Policy { rules, default_normal }
    }

    /// The configured rules, in evaluation order.
    pub fn rules(&self) -> (r: &[Rule])
        ensures
            r@ == self.rule_list(),
    {
        self.rules.as_slice()
    }

    /// The fallback verdict for an unmatched [`Risk::Normal`] action.
    pub fn default_normal(&self) -> (r: Verdict)
        ensures
            r == self.normal_verdict(),
    {
        self.default_normal
    }

    /// Evaluate `request` for a turn on `channel` (`None` when no session is in
    /// scope), reporting which rule matched.
    ///
    /// Deny rules take precedence over allow rules regardless of order. With no
    /// rule matching, [`Risk::Normal`] falls to `default_normal` and
    /// [`Risk::Dangerous`] always asks. A [`Risk::Safe`] action is only ever
    /// denied or allowed. Without a session a default never grants.
    pub fn decide(&self, request: &ApprovalRequest, channel: Option<&str>) -> (r: Decision)
        ensures
            r.is_outcome(
                outcome(
                    self.rule_list(),
                    self.normal_verdict(),
                    requested_aim(request.action),
                    request.risk,
                    text::opt_view(channel),
                ),
            ),
    {
        match &request.action {
            Some(action) => {
                let resource = resource_of(action);
                self.decide_resource(&resource, request.risk, channel)
            },
            None => Decision::fallback(self.default_for(request.risk, channel)),
        }
    }

    /// Evaluate an action whose target text is already known.
    pub fn decide_resource(&self, resource: &Resource, risk: Risk, channel: Option<&str>) -> (r:
        Decision)
        ensures
            r.is_outcome(
                outcome(
                    self.rule_list(),
                    self.normal_verdict(),
                    Some(resource.aim()),
                    risk,
                    text::opt_view(channel),
                ),
            ),
    {
        let ghost aim = resource.aim();
        let ghost on = text::opt_view(channel);
        let mut i: usize = 0;
        while i < self.rules.len()
            invariant
                i <= self.rules.len(),
                aim == resource.aim(),
                on == text::opt_view(channel),
                first_deny(self.rule_list(), aim, on, 0) == first_deny(
                    self.rule_list(),
                    aim,
                    on,
                    i as int,
                ),
            decreases self.rules.len() - i,
        {
            let rule = &self.rules[i];
            if rule.effect == Effect::Deny && rule.applies(resource, channel) && rule.matches(
                resource,
            ) {
                return Decision { verdict: Verdict::Deny, rule: Some(i) };
            }
            i = i + 1;
        }
        if risk == Risk::Safe {
            return Decision::fallback(Verdict::Allow);
        }
        let mut j: usize = 0;
        while j < self.rules.len()
            invariant
                j <= self.rules.len(),
                aim == resource.aim(),
                on == text::opt_view(channel),
                risk != Risk::Safe,
                first_deny(self.rule_list(), aim, on, 0) is None,
                first_grant(self.rule_list(), aim, risk, on, 0) == first_grant(
                    self.rule_list(),
                    aim,
                    risk,
                    on,
                    j as int,
                ),
            decreases self.rules.len() - j,
        {
            let rule = &self.rules[j];
            if rule.effect == Effect::Allow && rule.applies(resource, channel) && rule.matches(
                resource,
            ) && !(risk == Risk::Dangerous && !rule.include_dangerous) && !(channel.is_none()
                && !rule.unattended) {
                return Decision { verdict: Verdict::Allow, rule: Some(j) };
            }
            j = j + 1;
        }
        Decision::fallback(self.default_for(risk, channel))
    }

    fn default_for(&self, risk: Risk, channel: Option<&str>) -> (r: Verdict)
        ensures
            r == fallback_verdict(self.normal_verdict(), risk, text::opt_view(channel)),
    {
        match risk {
            Risk::Safe => Verdict::Allow,
            Risk::Normal => {
                if channel.is_none() && self.default_normal == Verdict::Allow {
                    Verdict::Ask
                } else {
                    self.default_normal
                }
            },
            Risk::Dangerous => Verdict::Ask,
        }
    }
}

impl Default for Policy {
    /// The empty policy: no rules, and normal actions ask.
    fn default() -> (r: Self)
        ensures
            r.rule_list() == Seq::<Rule>::empty(),
            r.normal_verdict() == Verdict::Ask,
    {
        Policy::new(Vec::new(), Verdict::Ask)
    }
}

// ---------------------------------------------------------------------------
// Laws of the rule engine
// ---------------------------------------------------------------------------

/// Whether some rule denies.
pub open spec fn some_deny(rules: Seq<Rule>, aim: Aim, channel: Option<Seq<char>>) -> bool {
    exists|k: int| 0 <= k < rules.len() && (#[trigger] rules[k]).denies(aim, channel)
}

/// Whether some rule grants.
pub open spec fn some_grant(
    rules: Seq<Rule>,
    aim: Aim,
    risk: Risk,
    channel: Option<Seq<char>>,
) -> bool {
    exists|k: int| 0 <= k < rules.len() && (#[trigger] rules[k]).grants(aim, risk, channel)
}

proof fn lemma_first_deny(rules: Seq<Rule>, aim: Aim, channel: Option<Seq<char>>, i: int)
    requires
        0 <= i,
    ensures
        match first_deny(rules, aim, channel, i) {
            Some(k) => i <= k < rules.len() && rules[k].denies(aim, channel),
            None => forall|k: int|
                i <= k < rules.len() ==> !(#[trigger] rules[k]).denies(aim, channel),
        },
    decreases rules.len() - i,
{
    if i < rules.len() && !rules[i].denies(aim, channel) {
        lemma_first_deny(rules, aim, channel, i + 1);
    }
}

proof fn lemma_first_grant(
    rules: Seq<Rule>,
    aim: Aim,
    risk: Risk,
    channel: Option<Seq<char>>,
    i: int,
)
    requires
        0 <= i,
    ensures
        match first_grant(rules, aim, risk, channel, i) {
            Some(k) => i <= k < rules.len() && rules[k].grants(aim, risk, channel),
            None => forall|k: int|
                i <= k < rules.len() ==> !(#[trigger] rules[k]).grants(aim, risk, channel),
        },
    decreases rules.len() - i,
{
    if i < rules.len() && !rules[i].grants(aim, risk, channel) {
        lemma_first_grant(rules, aim, risk, channel, i + 1);
    }
}

/// Deny rules beat allow rules wherever they stand in the list, at every risk:
/// one denying rule is enough for the verdict to be a denial.
pub proof fn deny_beats_allow(
    rules: Seq<Rule>,
    default_normal: Verdict,
    aim: Aim,
    risk: Risk,
    channel: Option<Seq<char>>,
)
    requires
        some_deny(rules, aim, channel),
    ensures
        outcome(rules, default_normal, Some(aim), risk, channel).0 == Verdict::Deny,
{
    lemma_first_deny(rules, aim, channel, 0);
}

/// The verdict depends on which rules there are and not on their order: two
/// lists that hold the same rules decide alike.
pub proof fn order_of_rules_is_irrelevant(
    a: Seq<Rule>,
    b: Seq<Rule>,
    default_normal: Verdict,
    aim: Option<Aim>,
    risk: Risk,
    channel: Option<Seq<char>>,
)
    requires
        forall|r: Rule| a.contains(r) == b.contains(r),
    ensures
        outcome(a, default_normal, aim, risk, channel).0 == outcome(
            b,
            default_normal,
            aim,
            risk,
            channel,
        ).0,
{
    if aim is Some {
        let x = aim->0;
        lemma_first_deny(a, x, channel, 0);
        lemma_first_deny(b, x, channel, 0);
        lemma_first_grant(a, x, risk, channel, 0);
        lemma_first_grant(b, x, risk, channel, 0);
        match first_deny(a, x, channel, 0) {
            Some(k) => {
                assert(a.contains(a[k]));
                assert(b.contains(a[k]));
            },
            None => {},
        }
        match first_deny(b, x, channel, 0) {
            Some(k) => {
                assert(b.contains(b[k]));
                assert(a.contains(b[k]));
            },
            None => {},
        }
        match first_grant(a, x, risk, channel, 0) {
            Some(k) => {
                assert(a.contains(a[k]));
                assert(b.contains(a[k]));
            },
            None => {},
        }
        match first_grant(b, x, risk, channel, 0) {
            Some(k) => {
                assert(b.contains(b[k]));
                assert(a.contains(b[k]));
            },
            None => {},
        }
    }
}

/// Without a session, anything but a safe action is allowed only through an
/// allow rule that is marked for unattended use; no default ever grants there.
pub proof fn unattended_needs_a_marked_rule(
    rules: Seq<Rule>,
    default_normal: Verdict,
    aim: Option<Aim>,
    risk: Risk,
)
    requires
        risk != Risk::Safe,
        outcome(rules, default_normal, aim, risk, None).0 == Verdict::Allow,
    ensures
        aim is Some,
        exists|k: int|
            0 <= k < rules.len() && (#[trigger] rules[k]).unattended && rules[k].effect
                == Effect::Allow && rules[k].hits(aim->0) && rules[k].channels is None,
{
    if aim is Some {
        lemma_first_grant(rules, aim->0, risk, None, 0);
        let k = first_grant(rules, aim->0, risk, None, 0)->0;
        assert(rules[k].unattended);
    }
}

/// A dangerous action is allowed only through an allow rule that includes
/// dangerous actions, and is never denied by a default.
pub proof fn dangerous_needs_an_explicit_rule(
    rules: Seq<Rule>,
    default_normal: Verdict,
    aim: Option<Aim>,
    channel: Option<Seq<char>>,
)
    ensures
        outcome(rules, default_normal, aim, Risk::Dangerous, channel).0 == Verdict::Allow ==> aim
            is Some && exists|k: int|
            0 <= k < rules.len() && (#[trigger] rules[k]).include_dangerous && rules[k].effect
                == Effect::Allow && rules[k].hits(aim->0),
        outcome(rules, default_normal, aim, Risk::Dangerous, channel).0 == Verdict::Deny ==> aim
            is Some && some_deny(rules, aim->0, channel),
{
    if aim is Some {
        lemma_first_deny(rules, aim->0, channel, 0);
        lemma_first_grant(rules, aim->0, Risk::Dangerous, channel, 0);
    }
}

/// A safe action is never put to the user and no default blocks it: it is denied
/// exactly when a deny rule matches, and allowed otherwise.
pub proof fn safe_actions_are_deny_only(
    rules: Seq<Rule>,
    default_normal: Verdict,
    aim: Option<Aim>,
    channel: Option<Seq<char>>,
)
    ensures
        outcome(rules, default_normal, aim, Risk::Safe, channel).0 == (if aim is Some && some_deny(
            rules,
            aim->0,
            channel,
        ) {
            Verdict::Deny
        } else {
            Verdict::Allow
        }),
{
    if aim is Some {
        lemma_first_deny(rules, aim->0, channel, 0);
    }
}

/// The rule that a decision cites exists and has the effect that the verdict
/// names.
pub proof fn cited_rule_is_real(
    rules: Seq<Rule>,
    default_normal: Verdict,
    aim: Aim,
    risk: Risk,
    channel: Option<Seq<char>>,
)
    ensures
        match outcome(rules, default_normal, Some(aim), risk, channel) {
            (v, Some(i)) => {
                &&& 0 <= i < rules.len()
                &&& v == Verdict::Deny && rules[i].denies(aim, channel) || v == Verdict::Allow
                    && rules[i].grants(aim, risk, channel)
            },
            (_, None) => !some_deny(rules, aim, channel) && (risk != Risk::Safe ==> !some_grant(
                rules,
                aim,
                risk,
                channel,
            )),
        },
{
    lemma_first_deny(rules, aim, channel, 0);
    lemma_first_grant(rules, aim, risk, channel, 0);
}

/// The empty policy puts every normal or dangerous action to the user and lets
/// safe ones pass.
pub proof fn empty_policy_asks(aim: Option<Aim>, risk: Risk, channel: Option<Seq<char>>)
    ensures
        outcome(Seq::<Rule>::empty(), Verdict::Ask, aim, risk, channel) == (
            if risk == Risk::Safe {
                Verdict::Allow
            } else {
                Verdict::Ask
            },
            None::<int>,
        ),
{
}

// ---------------------------------------------------------------------------
// Laws of a decision, over the fields of the rules and of the action
// ---------------------------------------------------------------------------

/// The class of actions that an action belongs to.
pub open spec fn class_of(action: ActionRef) -> Category {
    match action {
        ActionRef::Shell { .. } => Category::Shell,
        ActionRef::File { .. } => Category::File,
        ActionRef::Network { .. } => Category::Network,
        ActionRef::Service { .. } => Category::HomeAssistant,
    }
}

/// Whether a rule's access covers an action: only files tell reads from writes.
pub open spec fn access_covers(access: Option<Access>, action: ActionRef) -> bool {
    match action {
        ActionRef::File { write, .. } => match access {
            None => true,
            Some(Access::Read) => !write,
            Some(Access::Write) => write,
        },
        _ => true,
    }
}

/// Whether a rule's channels cover a turn: all turns where it names none, else those on a
/// channel that it names.
pub open spec fn channels_cover(names: Option<Vec<String>>, channel: Option<&str>) -> bool {
    match names {
        None => true,
        Some(list) => channel is Some && exists|k: int|
            0 <= k < list@.len() && (#[trigger] list@[k])@ == channel->0@,
    }
}

/// Whether a target stands to a value as a matcher says.
pub open spec fn stands_to(matcher: Matcher, value: Seq<char>, target: Seq<char>) -> bool {
    match matcher {
        Matcher::Prefix => value.is_prefix_of(target),
        Matcher::Suffix => value.is_suffix_of(target),
        Matcher::Exact => target == value,
        Matcher::Contains => exists|k: int|
            0 <= k <= target.len() - value.len() && #[trigger] target.subrange(
                k,
                k + value.len(),
            ) == value,
    }
}

/// The text that an action's rules are matched against, where it stands in the action as it
/// is: the command, the path, or the service after its domain.
pub open spec fn plain_target(action: ActionRef) -> Option<Seq<char>> {
    match action {
        ActionRef::Shell { command } => Some(command@),
        ActionRef::File { path, .. } => Some(path@),
        ActionRef::Network { .. } => None,
        ActionRef::Service { domain, service } => Some(domain@ + seq!['.'] + service@),
    }
}

proof fn lemma_plain_target(action: ActionRef)
    ensures
        aim_of(action).category == class_of(action),
        plain_target(action) is Some ==> aim_of(action).target == plain_target(action)->0,
        class_of(action) == Category::Network <==> plain_target(action) is None,
        action matches ActionRef::File { write, .. } ==> aim_of(action).write == write,
{
    reveal_strlit(".");
    if let ActionRef::Service { domain, service } = action {
        assert("."@ =~= seq!['.']);
    }
}

proof fn lemma_stands_to(matcher: Matcher, value: Seq<char>, target: Seq<char>)
    ensures
        matcher.fits(value, target) == stands_to(matcher, value, target),
{
    match matcher {
        Matcher::Prefix => {
            if value.len() <= target.len() {
                assert(target.subrange(0, value.len() as int) =~= target.subrange(
                    0int,
                    0int + value.len(),
                ));
            }
        },
        Matcher::Suffix => {
            if value.len() <= target.len() {
                assert(target.subrange(
                    target.len() - value.len(),
                    (target.len() - value.len()) + value.len(),
                ) == target.subrange((target.len() - value.len()) as int, target.len() as int));
            }
        },
        Matcher::Exact => {},
        Matcher::Contains => {
            if text::has_part(target, value) {
                let k = choose|k: int| text::occurs_at(target, value, k);
                assert(target.subrange(k, k + value.len()) == value);
            }
            if stands_to(matcher, value, target) {
                let k = choose|k: int|
                    0 <= k <= target.len() - value.len() && #[trigger] target.subrange(
                        k,
                        k + value.len(),
                    ) == value;
                assert(text::occurs_at(target, value, k));
            }
        },
    }
}

proof fn lemma_channels(names: Option<Vec<String>>, channel: Option<&str>)
    ensures
        channels_cover(names, channel) == match channel_names(names) {
            Some(allowed) => text::opt_view(channel) is Some && allowed.contains(
                text::opt_view(channel)->0,
            ),
            None => true,
        },
{
    if let Some(list) = names {
        let v = text::views(list@);
        if channel is Some {
            let c = channel->0@;
            if v.contains(c) {
                let k = choose|k: int| 0 <= k < v.len() && v[k] == c;
                assert(list@[k]@ == c);
            }
            if channels_cover(names, channel) {
                let k = choose|k: int| 0 <= k < list@.len() && (#[trigger] list@[k])@ == c;
                assert(v[k] == c);
            }
        }
    }
}

/// Whether a rule speaks of an action on a channel, its value aside: its class, its
/// channels and its access are those of the action.
pub open spec fn speaks_of(rule: Rule, action: ActionRef, channel: Option<&str>) -> bool {
    &&& rule.category == class_of(action)
    &&& channels_cover(rule.channels, channel)
    &&& access_covers(rule.access, action)
}

/// Whether an allow rule may grant at a risk on a channel: a dangerous action only where
/// the rule includes those, and without a session only where it is marked for that.
pub open spec fn may_grant(rule: Rule, risk: Risk, channel: Option<&str>) -> bool {
    &&& risk == Risk::Dangerous ==> rule.include_dangerous
    &&& channel is None ==> rule.unattended
}

proof fn lemma_speaks_of(rule: Rule, action: ActionRef, channel: Option<&str>)
    ensures
        rule.in_scope(aim_of(action), text::opt_view(channel)) == speaks_of(rule, action, channel),
        plain_target(action) is Some ==> rule.hits(aim_of(action)) == stands_to(
            rule.matcher,
            rule.value@,
            plain_target(action)->0,
        ),
{
    lemma_plain_target(action);
    lemma_channels(rule.channels, channel);
    if plain_target(action) is Some {
        lemma_stands_to(rule.matcher, rule.value@, plain_target(action)->0);
    }
}

/// A decision cites a rule on a file action only where the rule's access covers it: a rule
/// for reads never decides on a write, nor one for writes on a read.
pub proof fn file_rules_keep_to_their_access(
    policy: Policy,
    request: ApprovalRequest,
    channel: Option<&str>,
    d: Decision,
)
    requires
        call_ensures(Policy::decide, (&policy, &request, channel), d),
        request.action is Some,
        d.rule is Some,
    ensures
        d.rule->0 < policy.rule_list().len(),
        access_covers(policy.rule_list()[d.rule->0 as int].access, request.action->0),
{
    cited_rules_speak_of_the_action(policy, request, channel, d);
}

/// A write of a file is not granted by rules for reads, nor a read by rules for writes:
/// where every allow rule on files is for the other access, no rule allows.
pub proof fn rules_for_the_other_access_grant_nothing(
    policy: Policy,
    request: ApprovalRequest,
    channel: Option<&str>,
    d: Decision,
    path: String,
    write: bool,
)
    requires
        call_ensures(Policy::decide, (&policy, &request, channel), d),
        request.action == Some(ActionRef::File { path, write }),
        forall|i: int|
            0 <= i < policy.rule_list().len() && (#[trigger] policy.rule_list()[i]).category
                == Category::File && policy.rule_list()[i].effect == Effect::Allow
                ==> policy.rule_list()[i].access == Some(
                if write {
                    Access::Read
                } else {
                    Access::Write
                },
            ),
    ensures
        d.verdict == Verdict::Allow ==> d.rule is None,
{
    if d.rule is Some {
        cited_rules_speak_of_the_action(policy, request, channel, d);
        assert(policy.rule_list()[d.rule->0 as int].category == Category::File);
    }
}

/// The rule that a decision cites speaks of the action, stands to its target as its
/// matcher says, and has the effect that the verdict names; where it allows, it may.
pub proof fn cited_rules_speak_of_the_action(
    policy: Policy,
    request: ApprovalRequest,
    channel: Option<&str>,
    d: Decision,
)
    requires
        call_ensures(Policy::decide, (&policy, &request, channel), d),
        d.rule is Some,
    ensures
        request.action is Some,
        d.rule->0 < policy.rule_list().len(),
        ({
            let rule = policy.rule_list()[d.rule->0 as int];
            let action = request.action->0;
            &&& speaks_of(rule, action, channel)
            &&& plain_target(action) is Some ==> stands_to(
                rule.matcher,
                rule.value@,
                plain_target(action)->0,
            )
            &&& d.verdict == match rule.effect {
                Effect::Allow => Verdict::Allow,
                Effect::Deny => Verdict::Deny,
            }
            &&& rule.effect == Effect::Allow ==> may_grant(rule, request.risk, channel)
                && request.risk != Risk::Safe
        }),
{
    if request.action is Some {
        let action = request.action->0;
        let on = text::opt_view(channel);
        lemma_first_deny(policy.rule_list(), aim_of(action), on, 0);
        lemma_first_grant(policy.rule_list(), aim_of(action), request.risk, on, 0);
        lemma_speaks_of(policy.rule_list()[d.rule->0 as int], action, channel);
    }
}

/// A deny rule that speaks of an action and stands to its target denies it, whatever the
/// risk, the other rules and the default.
pub proof fn matching_deny_rules_deny(
    policy: Policy,
    request: ApprovalRequest,
    channel: Option<&str>,
    d: Decision,
    i: int,
)
    requires
        call_ensures(Policy::decide, (&policy, &request, channel), d),
        request.action is Some,
        plain_target(request.action->0) is Some,
        0 <= i < policy.rule_list().len(),
        policy.rule_list()[i].effect == Effect::Deny,
        speaks_of(policy.rule_list()[i], request.action->0, channel),
        stands_to(
            policy.rule_list()[i].matcher,
            policy.rule_list()[i].value@,
            plain_target(request.action->0)->0,
        ),
    ensures
        d.verdict == Verdict::Deny,
        d.rule is Some,
{
    lemma_first_deny(policy.rule_list(), aim_of(request.action->0), text::opt_view(channel), 0);
    lemma_speaks_of(policy.rule_list()[i], request.action->0, channel);
    assert(policy.rule_list()[i].denies(aim_of(request.action->0), text::opt_view(channel)));
}

/// An allow rule that speaks of an action, stands to its target and may grant allows it,
/// where no deny rule is about actions of that class.
pub proof fn matching_allow_rules_allow(
    policy: Policy,
    request: ApprovalRequest,
    channel: Option<&str>,
    d: Decision,
    i: int,
)
    requires
        call_ensures(Policy::decide, (&policy, &request, channel), d),
        request.action is Some,
        plain_target(request.action->0) is Some,
        0 <= i < policy.rule_list().len(),
        policy.rule_list()[i].effect == Effect::Allow,
        speaks_of(policy.rule_list()[i], request.action->0, channel),
        may_grant(policy.rule_list()[i], request.risk, channel),
        stands_to(
            policy.rule_list()[i].matcher,
            policy.rule_list()[i].value@,
            plain_target(request.action->0)->0,
        ),
        forall|k: int|
            0 <= k < policy.rule_list().len() && (#[trigger] policy.rule_list()[k]).category
                == class_of(request.action->0) ==> policy.rule_list()[k].effect == Effect::Allow,
    ensures
        d.verdict == Verdict::Allow,
        request.risk != Risk::Safe ==> d.rule is Some,
{
    let aim = aim_of(request.action->0);
    let on = text::opt_view(channel);
    lemma_plain_target(request.action->0);
    lemma_first_deny(policy.rule_list(), aim, on, 0);
    lemma_first_grant(policy.rule_list(), aim, request.risk, on, 0);
    lemma_speaks_of(policy.rule_list()[i], request.action->0, channel);
    assert(policy.rule_list()[i].grants(aim, request.risk, on));
}

/// Where no rule is about actions of a class, or the request names no action, the risk and
/// the default decide: safe actions pass, dangerous ones ask, and normal ones go by the
/// default, which never allows without a session.
pub proof fn without_rules_the_default_decides(
    policy: Policy,
    request: ApprovalRequest,
    channel: Option<&str>,
    d: Decision,
)
    requires
        call_ensures(Policy::decide, (&policy, &request, channel), d),
        request.action is Some ==> forall|k: int|
            0 <= k < policy.rule_list().len() ==> (#[trigger] policy.rule_list()[k]).category
                != class_of(request.action->0),
    ensures
        d.rule is None,
        request.risk == Risk::Safe ==> d.verdict == Verdict::Allow,
        request.risk == Risk::Dangerous ==> d.verdict == Verdict::Ask,
        request.risk == Risk::Normal && channel is Some ==> d.verdict == policy.normal_verdict(),
        request.risk == Risk::Normal && channel is None ==> d.verdict == match policy
            .normal_verdict() {
            Verdict::Deny => Verdict::Deny,
            _ => Verdict::Ask,
        },
{
    if request.action is Some {
        let aim = aim_of(request.action->0);
        lemma_plain_target(request.action->0);
        lemma_first_deny(policy.rule_list(), aim, text::opt_view(channel), 0);
        lemma_first_grant(policy.rule_list(), aim, request.risk, text::opt_view(channel), 0);
    }
}

proof fn lemma_scheme_end(scheme: Seq<char>, rest: Seq<char>, i: int)
    requires
        !scheme.contains(':'),
        0 <= i <= scheme.len(),
    ensures
        text::first_from(scheme + "://"@ + rest, "://"@, i) == Some(scheme.len() as int),
    decreases scheme.len() - i,
{
    reveal_strlit("://");
    let s = scheme + "://"@ + rest;
    if i < scheme.len() {
        assert(s.subrange(i, i + 3)[0] == scheme[i]);
        assert(scheme.contains(scheme[i]));
        assert(!text::occurs_at(s, "://"@, i));
        lemma_scheme_end(scheme, rest, i + 1);
    } else {
        assert(s.subrange(i, i + 3) =~= "://"@);
    }
}

/// The host of a URL is what stands between its scheme and its port, path, query or
/// fragment, in small letters; credentials are not set apart from it.
pub proof fn hosts_stand_after_the_scheme(
    url: &str,
    r: String,
    scheme: Seq<char>,
    host: Seq<char>,
    rest: Seq<char>,
)
    requires
        call_ensures(host_of, (url,), r),
        url@ == scheme + "://"@ + host + rest,
        !scheme.contains(':'),
        forall|k: int|
            0 <= k < host.len() ==> (#[trigger] host[k]) != '/' && host[k] != ':' && host[k] != '?'
                && host[k] != '#',
        rest.len() > 0 ==> rest[0] == '/' || rest[0] == ':' || rest[0] == '?' || rest[0] == '#',
    ensures
        r@ == casing::lowercase(host),
{
    reveal_strlit("://");
    assert(url@ =~= scheme + "://"@ + (host + rest));
    lemma_scheme_end(scheme, host + rest, 0);
    let tail = url@.skip(scheme.len() as int + 3);
    assert(tail =~= host + rest);
    lemma_host_part(tail, host.len() as int);
    assert(tail.take(host.len() as int) =~= host);
}

/// A suffix rule on hosts matches whole labels: it decides on a host only where the host
/// is its value or ends in a dot and its value, leading dots of the value aside.
pub proof fn host_suffixes_match_whole_labels(
    policy: Policy,
    request: ApprovalRequest,
    channel: Option<&str>,
    d: Decision,
    url: String,
    host: String,
)
    requires
        call_ensures(Policy::decide, (&policy, &request, channel), d),
        request.action == Some(ActionRef::Network { url }),
        d.rule is Some,
        exists|u: &str| u@ == url@ && call_ensures(host_of, (u,), host),
    ensures
        ({
            let rule = policy.rule_list()[d.rule->0 as int];
            &&& rule.category == Category::Network
            &&& rule.matcher == Matcher::Suffix && (rule.value@.len() == 0 || rule.value@[0] != '.')
                ==> host@ == rule.value@ || (seq!['.'] + rule.value@).is_suffix_of(host@)
            &&& rule.matcher != Matcher::Suffix ==> stands_to(rule.matcher, rule.value@, host@)
        }),
{
    reveal_strlit(".");
    cited_rules_speak_of_the_action(policy, request, channel, d);
    let rule = policy.rule_list()[d.rule->0 as int];
    let action = request.action->0;
    let on = text::opt_view(channel);
    lemma_first_deny(policy.rule_list(), aim_of(action), on, 0);
    lemma_first_grant(policy.rule_list(), aim_of(action), request.risk, on, 0);
    assert(rule.hits(aim_of(action)));
    assert("."@ =~= seq!['.']);
    lemma_stands_to(Matcher::Suffix, "."@ + rule.value@, host@);
    lemma_stands_to(rule.matcher, rule.value@, host@);
}

/// An allow rule that speaks of an action, stands to its target and may grant allows it
/// unless a deny rule does both too: denials of other targets do not count.
pub proof fn allow_rules_allow_unless_denied(
    policy: Policy,
    request: ApprovalRequest,
    channel: Option<&str>,
    d: Decision,
    i: int,
)
    requires
        call_ensures(Policy::decide, (&policy, &request, channel), d),
        request.action is Some,
        plain_target(request.action->0) is Some,
        0 <= i < policy.rule_list().len(),
        policy.rule_list()[i].effect == Effect::Allow,
        speaks_of(policy.rule_list()[i], request.action->0, channel),
        may_grant(policy.rule_list()[i], request.risk, channel),
        stands_to(
            policy.rule_list()[i].matcher,
            policy.rule_list()[i].value@,
            plain_target(request.action->0)->0,
        ),
        forall|k: int|
            0 <= k < policy.rule_list().len() && (#[trigger] policy.rule_list()[k]).effect
                == Effect::Deny ==> !(speaks_of(policy.rule_list()[k], request.action->0, channel)
                && stands_to(
                policy.rule_list()[k].matcher,
                policy.rule_list()[k].value@,
                plain_target(request.action->0)->0,
            )),
    ensures
        d.verdict == Verdict::Allow,
{
    let rules = policy.rule_list();
    let aim = aim_of(request.action->0);
    let on = text::opt_view(channel);
    lemma_first_deny(rules, aim, on, 0);
    lemma_first_grant(rules, aim, request.risk, on, 0);
    lemma_speaks_of(rules[i], request.action->0, channel);
    assert(rules[i].grants(aim, request.risk, on));
    assert forall|k: int| 0 <= k < rules.len() implies !(#[trigger] rules[k]).denies(aim, on) by {
        lemma_speaks_of(rules[k], request.action->0, channel);
    }
}

/// Where no rule both speaks of an action and stands to its target, the risk and the
/// default decide, whatever other rules there are.
pub proof fn unmatched_actions_go_by_the_default(
    policy: Policy,
    request: ApprovalRequest,
    channel: Option<&str>,
    d: Decision,
)
    requires
        call_ensures(Policy::decide, (&policy, &request, channel), d),
        request.action is Some,
        plain_target(request.action->0) is Some,
        forall|k: int|
            0 <= k < policy.rule_list().len() ==> !(speaks_of(
                #[trigger] policy.rule_list()[k],
                request.action->0,
                channel,
            ) && stands_to(
                policy.rule_list()[k].matcher,
                policy.rule_list()[k].value@,
                plain_target(request.action->0)->0,
            )),
    ensures
        d.rule is None,
        request.risk == Risk::Safe ==> d.verdict == Verdict::Allow,
        request.risk == Risk::Dangerous ==> d.verdict == Verdict::Ask,
        request.risk == Risk::Normal && channel is Some ==> d.verdict == policy.normal_verdict(),
        request.risk == Risk::Normal && channel is None && policy.normal_verdict()
            != Verdict::Deny ==> d.verdict == Verdict::Ask,
{
    if d.rule is Some {
        cited_rules_speak_of_the_action(policy, request, channel, d);
        assert(speaks_of(policy.rule_list()[d.rule->0 as int], request.action->0, channel));
    }
    let rules = policy.rule_list();
    let aim = aim_of(request.action->0);
    let on = text::opt_view(channel);
    lemma_first_deny(rules, aim, on, 0);
    lemma_first_grant(rules, aim, request.risk, on, 0);
    assert forall|k: int| 0 <= k < rules.len() implies !(#[trigger] rules[k]).denies(aim, on)
        && !rules[k].grants(aim, request.risk, on) by {
        lemma_speaks_of(rules[k], request.action->0, channel);
    }
}

/// Whether a host stands to a rule's value: by whole labels where the rule gives a suffix.
pub open spec fn host_stands_to(rule: Rule, host: Seq<char>) -> bool {
    if rule.matcher == Matcher::Suffix {
        (rule.value@.len() == 0 || rule.value@[0] != '.') && (host == rule.value@ || (seq!['.']
            + rule.value@).is_suffix_of(host))
    } else {
        stands_to(rule.matcher, rule.value@, host)
    }
}

/// A deny rule on a host denies every fetch from it, and from what lies below it where the
/// rule gives a suffix.
pub proof fn denied_hosts_are_not_fetched(
    policy: Policy,
    request: ApprovalRequest,
    channel: Option<&str>,
    d: Decision,
    url: String,
    u: &str,
    host: String,
    i: int,
)
    requires
        call_ensures(Policy::decide, (&policy, &request, channel), d),
        request.action == Some(ActionRef::Network { url }),
        u@ == url@,
        call_ensures(host_of, (u,), host),
        0 <= i < policy.rule_list().len(),
        policy.rule_list()[i].effect == Effect::Deny,
        speaks_of(policy.rule_list()[i], request.action->0, channel),
        host_stands_to(policy.rule_list()[i], host@),
    ensures
        d.verdict == Verdict::Deny,
{
    reveal_strlit(".");
    let rule = policy.rule_list()[i];
    let aim = aim_of(request.action->0);
    let on = text::opt_view(channel);
    lemma_first_deny(policy.rule_list(), aim, on, 0);
    lemma_speaks_of(rule, request.action->0, channel);
    assert("."@ =~= seq!['.']);
    lemma_stands_to(Matcher::Suffix, "."@ + rule.value@, host@);
    lemma_stands_to(rule.matcher, rule.value@, host@);
    assert(rule.hits(aim));
    assert(rule.denies(aim, on));
}

} // verus!
