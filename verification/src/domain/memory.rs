//! Long-term memory: durable facts about the user, a project, a person or a
//! decision, governed by status and confidence and bounded by scope.
use crate::number;
use crate::sorting;
use crate::system;
use crate::text;
use vstd::prelude::*;
use vstd::string::*;

verus! {

/// Default ranking weight for a new memory.
pub const DEFAULT_IMPORTANCE: i32 = 50;

/// What a memory is about.
#[derive(Debug, Clone, Copy, PartialEq, Eq, Structural)]
pub enum MemoryKind {
    Profile,
    Preference,
    Feedback,
    Project,
    Person,
    Fact,
    Decision,
    Reference,
}

impl MemoryKind {
    /// The word that stands for it.
    pub open spec fn word(self) -> Seq<char> {
        match self {
            MemoryKind::Profile => "profile"@,
            MemoryKind::Preference => "preference"@,
            MemoryKind::Feedback => "feedback"@,
            MemoryKind::Project => "project"@,
            MemoryKind::Person => "person"@,
            MemoryKind::Fact => "fact"@,
            MemoryKind::Decision => "decision"@,
            MemoryKind::Reference => "reference"@,
        }
    }

    pub fn as_str(&self) -> (r: &'static str)
        ensures
            r@ == self.word(),
    {
        match self {
            MemoryKind::Profile => "profile",
            MemoryKind::Preference => "preference",
            MemoryKind::Feedback => "feedback",
            MemoryKind::Project => "project",
            MemoryKind::Person => "person",
            MemoryKind::Fact => "fact",
            MemoryKind::Decision => "decision",
            MemoryKind::Reference => "reference",
        }
    }
}

/// The kind that a word names, legacy `user` included; an unknown word means a fact.
pub open spec fn kind_of(word: Seq<char>) -> MemoryKind {
    if word == "profile"@ || word == "user"@ {
        MemoryKind::Profile
    } else if word == "preference"@ {
        MemoryKind::Preference
    } else if word == "feedback"@ {
        MemoryKind::Feedback
    } else if word == "project"@ {
        MemoryKind::Project
    } else if word == "person"@ {
        MemoryKind::Person
    } else if word == "decision"@ {
        MemoryKind::Decision
    } else if word == "reference"@ {
        MemoryKind::Reference
    } else {
        MemoryKind::Fact
    }
}

/// The kind that a word names, legacy `user` included; an unknown word means a fact.
pub fn parse_memory_kind(value: &str) -> (r: MemoryKind)
    ensures
        r == kind_of(text::trimmed(value@)),
{
    let word = text::trim(value);
    if text::same(word, "profile") || text::same(word, "user") {
        MemoryKind::Profile
    } else if text::same(word, "preference") {
        MemoryKind::Preference
    } else if text::same(word, "feedback") {
        MemoryKind::Feedback
    } else if text::same(word, "project") {
        MemoryKind::Project
    } else if text::same(word, "person") {
        MemoryKind::Person
    } else if text::same(word, "decision") {
        MemoryKind::Decision
    } else if text::same(word, "reference") {
        MemoryKind::Reference
    } else {
        MemoryKind::Fact
    }
}

/// Lifecycle state of a memory. Automated extraction lands as `Candidate`.
#[derive(Debug, Clone, Copy, PartialEq, Eq, Structural)]
pub enum MemoryStatus {
    Candidate,
    Active,
    Archived,
    Rejected,
}

impl MemoryStatus {
    /// The word that stands for it.
    pub open spec fn word(self) -> Seq<char> {
        match self {
            MemoryStatus::Candidate => "candidate"@,
            MemoryStatus::Active => "active"@,
            MemoryStatus::Archived => "archived"@,
            MemoryStatus::Rejected => "rejected"@,
        }
    }

    pub fn as_str(&self) -> (r: &'static str)
        ensures
            r@ == self.word(),
    {
        match self {
            MemoryStatus::Candidate => "candidate",
            MemoryStatus::Active => "active",
            MemoryStatus::Archived => "archived",
            MemoryStatus::Rejected => "rejected",
        }
    }
}

/// The status that a word names; an unknown word means active.
pub open spec fn status_of(word: Seq<char>) -> MemoryStatus {
    if word == "candidate"@ {
        MemoryStatus::Candidate
    } else if word == "archived"@ {
        MemoryStatus::Archived
    } else if word == "rejected"@ {
        MemoryStatus::Rejected
    } else {
        MemoryStatus::Active
    }
}

/// The status that a word names; an unknown word means active.
pub fn parse_memory_status(value: &str) -> (r: MemoryStatus)
    ensures
        r == status_of(text::trimmed(value@)),
{
    let word = text::trim(value);
    if text::same(word, "candidate") {
        MemoryStatus::Candidate
    } else if text::same(word, "archived") {
        MemoryStatus::Archived
    } else if text::same(word, "rejected") {
        MemoryStatus::Rejected
    } else {
        MemoryStatus::Active
    }
}

/// How much a memory can be trusted, by origin.
#[derive(Debug, Clone, Copy, PartialEq, Eq, Structural)]
pub enum MemoryConfidence {
    Extracted,
    Inferred,
    Confirmed,
    UserWritten,
}

impl MemoryConfidence {
    /// The word that stands for it.
    pub open spec fn word(self) -> Seq<char> {
        match self {
            MemoryConfidence::Extracted => "extracted"@,
            MemoryConfidence::Inferred => "inferred"@,
            MemoryConfidence::Confirmed => "confirmed"@,
            MemoryConfidence::UserWritten => "user_written"@,
        }
    }

    pub fn as_str(&self) -> (r: &'static str)
        ensures
            r@ == self.word(),
    {
        match self {
            MemoryConfidence::Extracted => "extracted",
            MemoryConfidence::Inferred => "inferred",
            MemoryConfidence::Confirmed => "confirmed",
            MemoryConfidence::UserWritten => "user_written",
        }
    }
}

/// The confidence that a word names; an unknown word means extracted.
pub open spec fn confidence_of(word: Seq<char>) -> MemoryConfidence {
    if word == "inferred"@ {
        MemoryConfidence::Inferred
    } else if word == "confirmed"@ {
        MemoryConfidence::Confirmed
    } else if word == "user_written"@ {
        MemoryConfidence::UserWritten
    } else {
        MemoryConfidence::Extracted
    }
}

/// The confidence that a word names; an unknown word means extracted.
pub fn parse_memory_confidence(value: &str) -> (r: MemoryConfidence)
    ensures
        r == confidence_of(text::trimmed(value@)),
{
    let word = text::trim(value);
    if text::same(word, "inferred") {
        MemoryConfidence::Inferred
    } else if text::same(word, "confirmed") {
        MemoryConfidence::Confirmed
    } else if text::same(word, "user_written") {
        MemoryConfidence::UserWritten
    } else {
        MemoryConfidence::Extracted
    }
}

/// Where a memory may surface.
#[derive(Debug, PartialEq, Eq)]
pub enum MemoryScope {
    /// Visible everywhere.
    Global,
    /// Tied to a project (CLI workspace key).
    Project(String),
    /// Tied to a chat channel.
    Channel { platform: String, chat_id: String },
    /// Tied to a single session id.
    Session(String),
}

/// What a scope says.
pub ghost enum Scope {
    Global,
    Project(Seq<char>),
    Channel(Seq<char>, Seq<char>),
    Session(Seq<char>),
}

impl View for MemoryScope {
    type V = Scope;

    open spec fn view(&self) -> Scope {
        match self {
            MemoryScope::Global => Scope::Global,
            MemoryScope::Project(p) => Scope::Project(p@),
            MemoryScope::Channel { platform, chat_id } => Scope::Channel(platform@, chat_id@),
            MemoryScope::Session(id) => Scope::Session(id@),
        }
    }
}

impl Clone for MemoryScope {
    fn clone(&self) -> (r: Self)
        ensures
            r == *self,
    {
        match self {
            MemoryScope::Global => MemoryScope::Global,
            MemoryScope::Project(p) => MemoryScope::Project(p.clone()),
            MemoryScope::Channel { platform, chat_id } => MemoryScope::Channel {
                platform: platform.clone(),
                chat_id: chat_id.clone(),
            },
            MemoryScope::Session(id) => MemoryScope::Session(id.clone()),
        }
    }
}

impl Scope {
    /// The word for the sort of scope.
    pub open spec fn word(self) -> Seq<char> {
        match self {
            Scope::Global => "global"@,
            Scope::Project(_) => "project"@,
            Scope::Channel(_, _) => "channel"@,
            Scope::Session(_) => "session"@,
        }
    }

    /// The key stored beside the word.
    pub open spec fn key_text(self) -> Seq<char> {
        match self {
            Scope::Global => Seq::empty(),
            Scope::Project(p) => p,
            Scope::Channel(platform, chat) => platform + ":"@ + chat,
            Scope::Session(id) => id,
        }
    }

    /// The scope that a stored word and key stand for. An unknown word, an empty
    /// project or session key, and a channel key without a colon mean global.
    pub open spec fn of_parts(word: Seq<char>, key: Seq<char>) -> Scope {
        if word == "project"@ && key.len() > 0 {
            Scope::Project(key)
        } else if word == "channel"@ {
            match text::cut_at(key, ":"@) {
                Some(sides) => Scope::Channel(sides.0, sides.1),
                None => Scope::Global,
            }
        } else if word == "session"@ && key.len() > 0 {
            Scope::Session(key)
        } else {
            Scope::Global
        }
    }
}

impl MemoryScope {
    pub fn type_str(&self) -> (r: &'static str)
        ensures
            r@ == self@.word(),
    {
        match self {
            MemoryScope::Global => "global",
            MemoryScope::Project(_) => "project",
            MemoryScope::Channel { .. } => "channel",
            MemoryScope::Session(_) => "session",
        }
    }

    /// The opaque key stored alongside `type_str`. Empty for `Global`.
    pub fn key(&self) -> (r: String)
        ensures
            r@ == self@.key_text(),
    {
        match self {
            MemoryScope::Global => String::new(),
            MemoryScope::Project(p) => p.clone(),
            MemoryScope::Channel { platform, chat_id } => {
                let mut out = platform.clone();
                out.push_str(":");
                out.push_str(chat_id);
                out
            },
            MemoryScope::Session(id) => id.clone(),
        }
    }

    /// Rebuild a scope from its stored type and key.
    pub fn from_parts(scope_type: &str, scope_key: &str) -> (r: Self)
        ensures
            r@ == Scope::of_parts(text::trimmed(scope_type@), scope_key@),
    {
        let word = text::trim(scope_type);
        if text::same(word, "project") && !scope_key.is_empty() {
            MemoryScope::Project(scope_key.to_owned())
        } else if text::same(word, "channel") {
            match text::split_once(scope_key, ":") {
                Some(sides) => MemoryScope::Channel {
                    platform: sides.0.to_owned(),
                    chat_id: sides.1.to_owned(),
                },
                None => MemoryScope::Global,
            }
        } else if text::same(word, "session") && !scope_key.is_empty() {
            MemoryScope::Session(scope_key.to_owned())
        } else {
            MemoryScope::Global
        }
    }

    /// Whether two scopes say the same.
    pub fn same(&self, other: &MemoryScope) -> (r: bool)
        ensures
            r == (self@ == other@),
    {
        match (self, other) {
            (MemoryScope::Global, MemoryScope::Global) => true,
            (MemoryScope::Project(a), MemoryScope::Project(b)) => text::same(a, b),
            (
                MemoryScope::Channel { platform: p, chat_id: c },
                MemoryScope::Channel { platform: q, chat_id: d },
            ) => text::same(p, q) && text::same(c, d),
            (MemoryScope::Session(a), MemoryScope::Session(b)) => text::same(a, b),
            _ => false,
        }
    }
}

/// The scopes a memory may be drawn from for the current turn. Scope is decided
/// here, before any query, so a query can never widen beyond it.
#[derive(Debug)]
pub struct MemoryContext {
    pub session_id: String,
    pub allowed_scopes: Vec<MemoryScope>,
}

/// What a list of scopes says.
pub open spec fn scopes_of(v: Seq<MemoryScope>) -> Seq<Scope> {
    Seq::new(v.len(), |i: int| v[i]@)
}

/// The scopes that a session may draw from: global, the channel of a chat session
/// (`platform:chat`), and the session itself.
pub open spec fn session_scopes(session: Seq<char>) -> Seq<Scope> {
    match text::cut_at(session, ":"@) {
        Some(sides) => seq![
            Scope::Global,
            Scope::Channel(sides.0, sides.1),
            Scope::Session(session),
        ],
        None => seq![Scope::Global, Scope::Session(session)],
    }
}

/// The first channel scope of a list, or global when it has none.
pub open spec fn first_channel(scopes: Seq<Scope>) -> Scope
    decreases scopes.len(),
{
    if scopes.len() == 0 {
        Scope::Global
    } else if scopes[0] is Channel {
        scopes[0]
    } else {
        first_channel(scopes.drop_first())
    }
}

impl MemoryContext {
    /// Derive the allowed scopes from a session id.
    pub fn from_session(session_id: &str) -> (r: Self)
        ensures
            r.session_id@ == session_id@,
            scopes_of(r.allowed_scopes@) == session_scopes(session_id@),
    {
        let mut allowed_scopes: Vec<MemoryScope> = Vec::new();
        allowed_scopes.push(MemoryScope::Global);
        if let Some(sides) = text::split_once(session_id, ":") {
            allowed_scopes.push(
                MemoryScope::Channel { platform: sides.0.to_owned(), chat_id: sides.1.to_owned() },
            );
        }
        allowed_scopes.push(MemoryScope::Session(session_id.to_owned()));
        assert(scopes_of(allowed_scopes@) =~= session_scopes(session_id@));
        MemoryContext { session_id: session_id.to_owned(), allowed_scopes }
    }

    /// The scope an automated write from this context should carry: the channel
    /// for a chat session, else global.
    pub fn write_scope(&self) -> (r: MemoryScope)
        ensures
            r@ == first_channel(scopes_of(self.allowed_scopes@)),
    {
        let mut i: usize = 0;
        assert(scopes_of(self.allowed_scopes@).skip(0) =~= scopes_of(self.allowed_scopes@));
        while i < self.allowed_scopes.len()
            invariant
                i <= self.allowed_scopes.len(),
                first_channel(scopes_of(self.allowed_scopes@)) == first_channel(
                    scopes_of(self.allowed_scopes@).skip(i as int),
                ),
            decreases self.allowed_scopes.len() - i,
        {
            assert(scopes_of(self.allowed_scopes@).skip(i as int).drop_first() =~= scopes_of(
                self.allowed_scopes@,
            ).skip(i + 1));
            if let MemoryScope::Channel { .. } = &self.allowed_scopes[i] {
                return self.allowed_scopes[i].clone();
            }
            i = i + 1;
        }
        MemoryScope::Global
    }

    /// Whether a memory's scope is permitted in this context.
    pub fn allows(&self, scope: &MemoryScope) -> (r: bool)
        ensures
            r == scopes_of(self.allowed_scopes@).contains(scope@),
    {
        let mut i: usize = 0;
        while i < self.allowed_scopes.len()
            invariant
                i <= self.allowed_scopes.len(),
                forall|k: int| 0 <= k < i ==> scopes_of(self.allowed_scopes@)[k] != scope@,
            decreases self.allowed_scopes.len() - i,
        {
            if self.allowed_scopes[i].same(scope) {
                assert(scopes_of(self.allowed_scopes@)[i as int] == scope@);
                return true;
            }
            i = i + 1;
        }
        false
    }
}

/// A long-term memory.
#[derive(Debug, PartialEq, Eq)]
pub struct Memory {
    pub id: String,
    pub kind: MemoryKind,
    pub content: String,
    pub status: MemoryStatus,
    pub confidence: MemoryConfidence,
    /// 0–100 ranking weight; ties broken by recency.
    pub importance: i32,
    /// Eligible for injection into every turn. Only ever set by the user.
    pub pinned: bool,
    pub scope: MemoryScope,
    /// Session this memory was distilled from. Empty = outside any session.
    pub source: String,
    /// Content-derived dedup key set on automated extraction.
    pub source_message_id: String,
    pub created_at: i64,
    pub updated_at: i64,
    /// Timestamp past which the memory is stale. `None` = never expires.
    pub expires_at: Option<i64>,
    /// Last time this memory surfaced in recall. `None` = never used.
    pub last_used_at: Option<i64>,
    /// How often this memory was recalled.
    pub recall_count: i64,
    /// By how many different queries it was recalled.
    pub recall_queries: u32,
}

impl Clone for Memory {
    fn clone(&self) -> (r: Self)
        ensures
            r == *self,
    {
        Memory {
            id: self.id.clone(),
            kind: self.kind,
            content: self.content.clone(),
            status: self.status,
            confidence: self.confidence,
            importance: self.importance,
            pinned: self.pinned,
            scope: self.scope.clone(),
            source: self.source.clone(),
            source_message_id: self.source_message_id.clone(),
            created_at: self.created_at,
            updated_at: self.updated_at,
            expires_at: self.expires_at,
            last_used_at: self.last_used_at,
            recall_count: self.recall_count,
            recall_queries: self.recall_queries,
        }
    }
}

impl Memory {
    /// Whether `self` is a fresh memory made at `now` with the clock at `nanos`.
    pub open spec fn is_fresh(self, kind: MemoryKind, content: Seq<char>, now: i64, nanos: int) -> bool {
        &&& self.id@ == "mem-"@ + number::signed(nanos)
        &&& self.kind == kind
        &&& self.content@ == content
        &&& self.status == MemoryStatus::Active
        &&& self.confidence == MemoryConfidence::Inferred
        &&& self.importance == DEFAULT_IMPORTANCE
        &&& !self.pinned
        &&& self.scope is Global
        &&& self.source@.len() == 0
        &&& self.source_message_id@.len() == 0
        &&& self.created_at == now
        &&& self.updated_at == now
        &&& self.expires_at is None
        &&& self.last_used_at is None
        &&& self.recall_count == 0
        &&& self.recall_queries == 0
    }

    /// A new memory at the given time, with conservative defaults.
    pub fn at(kind: MemoryKind, content: &str, now: i64, nanos: i128) -> (r: Self)
        ensures
            r.is_fresh(kind, content@, now, nanos as int),
    {
        let mut id = "mem-".to_owned();
        id.push_str(&number::write_wide(nanos));
        Memory {
            id,
            kind,
            content: content.to_owned(),
            status: MemoryStatus::Active,
            confidence: MemoryConfidence::Inferred,
            importance: DEFAULT_IMPORTANCE,
            pinned: false,
            scope: MemoryScope::Global,
            source: String::new(),
            source_message_id: String::new(),
            created_at: now,
            updated_at: now,
            expires_at: None,
            last_used_at: None,
            recall_count: 0,
            recall_queries: 0,
        }
    }

    /// A new memory with conservative defaults: active, inferred, global, not
    /// pinned.
    pub fn new(kind: MemoryKind, content: &str) -> (r: Self)
        ensures
            exists|now: i64, nanos: int| #[trigger]
                r.is_fresh(kind, content@, now, nanos) && system::clock_reads(now as int)
                    && system::clock_ticks(nanos),
    {
        let now: i64 = system::now();
        let nanos: i128 = system::now_nanos();
        let r = Memory::at(kind, content, now, nanos);
        assert(r.is_fresh(kind, content@, now, nanos as int));
        r
    }

    /// Whether the memory has expired as of `now`.
    pub open spec fn expired(self, now: i64) -> bool {
        self.expires_at is Some && self.expires_at->0 <= now
    }

    /// Whether this memory has expired as of `now` (a unix timestamp).
    pub fn is_expired(&self, now: i64) -> (r: bool)
        ensures
            r == self.expired(now),
    {
        match self.expires_at {
            Some(e) => e <= now,
            None => false,
        }
    }

    /// Whether the memory may be injected into every turn in the given scopes:
    /// pinned, active, confirmed or written by the user, about identity, in
    /// scope and not expired.
    pub open spec fn pinnable(self, scopes: Seq<Scope>, now: i64) -> bool {
        &&& self.pinned
        &&& self.status == MemoryStatus::Active
        &&& self.confidence == MemoryConfidence::Confirmed || self.confidence
            == MemoryConfidence::UserWritten
        &&& self.kind == MemoryKind::Profile || self.kind == MemoryKind::Preference || self.kind
            == MemoryKind::Feedback
        &&& scopes.contains(self.scope@)
        &&& !self.expired(now)
    }

    /// Whether this memory is eligible for per-turn injection in the context.
    pub fn is_pinnable(&self, ctx: &MemoryContext, now: i64) -> (r: bool)
        ensures
            r == self.pinnable(scopes_of(ctx.allowed_scopes@), now),
    {
        self.pinned && self.status == MemoryStatus::Active && (self.confidence
            == MemoryConfidence::Confirmed || self.confidence == MemoryConfidence::UserWritten) && (
        self.kind == MemoryKind::Profile || self.kind == MemoryKind::Preference || self.kind
            == MemoryKind::Feedback) && ctx.allows(&self.scope) && !self.is_expired(now)
    }
}

/// A scope-bounded search over the memory library.
#[derive(Debug)]
pub struct MemoryQuery {
    pub text: String,
    pub allowed_scopes: Vec<MemoryScope>,
    pub kinds: Vec<MemoryKind>,
    pub statuses: Vec<MemoryStatus>,
    pub limit: usize,
}

/// Which memories of a list may be injected.
pub open spec fn pinnable_flags(list: Seq<Memory>, scopes: Seq<Scope>, now: i64) -> Seq<bool> {
    Seq::new(list.len(), |i: int| list[i].pinnable(scopes, now))
}

/// The order of injection: most important first, then most recently updated.
pub open spec fn importance_keys(list: Seq<Memory>) -> Seq<sorting::Key> {
    Seq::new(
        list.len(),
        |i: int|
            (
                sorting::descending(list[i].importance as i64),
                sorting::descending(list[i].updated_at),
            ),
    )
}

/// The profile injected into every turn: the pinnable memories, most important
/// first, ties by the most recent update and then by position.
pub open spec fn profile(list: Seq<Memory>, scopes: Seq<Scope>, now: i64) -> Seq<Memory> {
    let order = sorting::selection(pinnable_flags(list, scopes, now), importance_keys(list));
    Seq::new(order.len(), |k: int| list[order[k]])
}

/// The profile injected into every turn in the context, from the whole library.
pub fn pinned(list: &Vec<Memory>, ctx: &MemoryContext, now: i64) -> (r: Vec<Memory>)
    ensures
        r@ == profile(list@, scopes_of(ctx.allowed_scopes@), now),
{
    let mut flags: Vec<bool> = Vec::new();
    let mut keys: Vec<sorting::Key> = Vec::new();
    let ghost scopes = scopes_of(ctx.allowed_scopes@);
    let mut i: usize = 0;
    while i < list.len()
        invariant
            i <= list.len(),
            scopes == scopes_of(ctx.allowed_scopes@),
            flags@ == pinnable_flags(list@, scopes, now).take(i as int),
            keys@ == importance_keys(list@).take(i as int),
        decreases list.len() - i,
    {
        let m = &list[i];
        flags.push(m.is_pinnable(ctx, now));
        keys.push((sorting::reversed(m.importance as i64), sorting::reversed(m.updated_at)));
        i = i + 1;
    }
    assert(flags@ =~= pinnable_flags(list@, scopes, now));
    assert(keys@ =~= importance_keys(list@));
    let order = sorting::select(&flags, &keys);
    let mut out: Vec<Memory> = Vec::new();
    let mut k: usize = 0;
    while k < order.len()
        invariant
            k <= order.len(),
            flags@.len() == list@.len(),
            order@.len() == profile(list@, scopes, now).len(),
            forall|j: int| 0 <= j < order@.len() ==> #[trigger] order@[j] < list@.len(),
            forall|j: int|
                0 <= j < order@.len() ==> profile(list@, scopes, now)[j] == list@[
                    #[trigger] order@[j] as int
                ],
            out@ == profile(list@, scopes, now).take(k as int),
        decreases order.len() - k,
    {
        out.push(list[order[k]].clone());
        k = k + 1;
    }
    assert(profile(list@, scopes, now).take(k as int) =~= profile(list@, scopes, now));
    out
}

// ---------------------------------------------------------------------------
// Laws
// ---------------------------------------------------------------------------

/// The word for a kind parses back to the kind.
pub proof fn kind_words_parse_back(x: MemoryKind)
    ensures
        kind_of(text::trimmed(x.word())) == x,
{
    reveal_strlit("profile");
    reveal_strlit("preference");
    reveal_strlit("feedback");
    reveal_strlit("project");
    reveal_strlit("person");
    reveal_strlit("fact");
    reveal_strlit("decision");
    reveal_strlit("reference");
    reveal_strlit("user");
    text::lemma_trim_none(x.word());
}

/// The word for a status parses back to the status.
pub proof fn status_words_parse_back(x: MemoryStatus)
    ensures
        status_of(text::trimmed(x.word())) == x,
{
    reveal_strlit("candidate");
    reveal_strlit("active");
    reveal_strlit("archived");
    reveal_strlit("rejected");
    text::lemma_trim_none(x.word());
}

/// The word for a confidence parses back to it.
pub proof fn confidence_words_parse_back(x: MemoryConfidence)
    ensures
        confidence_of(text::trimmed(x.word())) == x,
{
    reveal_strlit("extracted");
    reveal_strlit("inferred");
    reveal_strlit("confirmed");
    reveal_strlit("user_written");
    text::lemma_trim_none(x.word());
}

proof fn lemma_colon_first(a: Seq<char>, b: Seq<char>, i: int)
    requires
        !a.contains(':'),
        0 <= i <= a.len(),
    ensures
        text::first_from(a + ":"@ + b, ":"@, i) == Some(a.len() as int),
    decreases a.len() - i,
{
    reveal_strlit(":");
    let s = a + ":"@ + b;
    if i < a.len() {
        assert(s.subrange(i, i + 1)[0] == a[i]);
        assert(a.contains(a[i]));
        assert(!text::occurs_at(s, ":"@, i));
        lemma_colon_first(a, b, i + 1);
    } else {
        assert(s.subrange(i, i + 1) =~= ":"@);
    }
}

/// A scope survives being stored as a type and a key and read back. Two sorts of
/// scope do not: a project or session with an empty key, and a channel whose
/// platform name has a colon in it.
pub proof fn scope_survives_storage(s: Scope)
    requires
        s matches Scope::Project(p) ==> p.len() > 0,
        s matches Scope::Session(id) ==> id.len() > 0,
        s matches Scope::Channel(platform, _) ==> !platform.contains(':'),
    ensures
        Scope::of_parts(text::trimmed(s.word()), s.key_text()) == s,
{
    reveal_strlit("global");
    reveal_strlit("project");
    reveal_strlit("channel");
    reveal_strlit("session");
    text::lemma_trim_none(s.word());
    assert("project"@[0] == 'p' && "channel"@[0] == 'c' && "session"@[0] == 's' && "global"@[0]
        == 'g');
    match s {
        Scope::Channel(platform, chat) => {
            lemma_colon_first(platform, chat, 0);
            reveal_strlit(":");
            let key = platform + ":"@ + chat;
            assert(key.take(platform.len() as int) =~= platform);
            assert(key.skip(platform.len() as int + 1) =~= chat);
        },
        _ => {},
    }
}

/// A session may always draw on global memories and on its own, and on no other
/// session's; the only channel it may draw on is the one that its id names.
pub proof fn session_never_sees_another(session: Seq<char>, other: Scope)
    ensures
        session_scopes(session).contains(Scope::Global),
        session_scopes(session).contains(Scope::Session(session)),
        session_scopes(session).contains(other) ==> match other {
            Scope::Global => true,
            Scope::Session(id) => id == session,
            Scope::Channel(p, c) => text::cut_at(session, ":"@) == Some((p, c)),
            Scope::Project(_) => false,
        },
{
    let s = session_scopes(session);
    assert(s[0] == Scope::Global);
    assert(s[s.len() - 1] == Scope::Session(session));
}

/// An automated write from a session carries a scope that the session may draw
/// on, and never the session's own scope: the memory stays recallable.
pub proof fn writes_stay_recallable(session: Seq<char>)
    ensures
        ({
            let w = first_channel(session_scopes(session));
            &&& session_scopes(session).contains(w)
            &&& !(w is Session)
            &&& !(w is Project)
            &&& w == match text::cut_at(session, ":"@) {
                Some(sides) => Scope::Channel(sides.0, sides.1),
                None => Scope::Global,
            }
        }),
{
    let s = session_scopes(session);
    reveal_with_fuel(first_channel, 4);
    assert(s[0] == Scope::Global);
    match text::cut_at(session, ":"@) {
        Some(sides) => {
            assert(s.drop_first()[0] == Scope::Channel(sides.0, sides.1));
            assert(s[1] == Scope::Channel(sides.0, sides.1));
        },
        None => {
            assert(s.drop_first()[0] == Scope::Session(session));
            assert(s.drop_first().drop_first().len() == 0);
        },
    }
}

/// The injected profile holds exactly the memories that may be injected, so none
/// that is unconfirmed, expired or out of scope; and it runs from the most to
/// the least important.
pub proof fn profile_is_governed(list: Seq<Memory>, scopes: Seq<Scope>, now: i64)
    ensures
        forall|k: int|
            0 <= k < profile(list, scopes, now).len() ==> (#[trigger] profile(
                list,
                scopes,
                now,
            )[k]).pinnable(scopes, now),
        forall|i: int|
            0 <= i < list.len() && (#[trigger] list[i]).pinnable(scopes, now) ==> profile(
                list,
                scopes,
                now,
            ).contains(list[i]),
        forall|j: int, k: int|
            0 <= j < k < profile(list, scopes, now).len() ==> (#[trigger] profile(
                list,
                scopes,
                now,
            )[j]).importance >= (#[trigger] profile(list, scopes, now)[k]).importance,
{
    let flags = pinnable_flags(list, scopes, now);
    let keys = importance_keys(list);
    let at = sorting::chosen(flags);
    let picked = Seq::new(at.len(), |k: int| keys[at[k]]);
    let order = sorting::selection(flags, keys);
    let rank = sorting::ranking(picked);
    sorting::chosen_is_exact(flags);
    sorting::ranking_is_stable(picked);
    assert forall|k: int| 0 <= k < order.len() implies 0 <= #[trigger] order[k] < list.len()
        && flags[order[k]] by {
        assert(order[k] == at[rank[k]]);
    }
    assert forall|i: int| 0 <= i < list.len() && (#[trigger] list[i]).pinnable(
        scopes,
        now,
    ) implies profile(list, scopes, now).contains(list[i]) by {
        assert(flags[i]);
        let a = choose|a: int| 0 <= a < at.len() && at[a] == i;
        sorting::ranking_reaches(picked, a);
        let k = choose|k: int| 0 <= k < rank.len() && rank[k] == a;
        assert(order[k] == at[rank[k]]);
        assert(profile(list, scopes, now)[k] == list[i]);
    }
    assert forall|j: int, k: int| 0 <= j < k < profile(list, scopes, now).len() implies (
    #[trigger] profile(list, scopes, now)[j]).importance >= (#[trigger] profile(
        list,
        scopes,
        now,
    )[k]).importance by {
        assert(order[j] == at[rank[j]]);
        assert(order[k] == at[rank[k]]);
        assert(picked[rank[j]] == keys[order[j]]);
        assert(picked[rank[k]] == keys[order[k]]);
    }
}

// ---------------------------------------------------------------------------
// Laws of the injected profile, over the fields of the memories
// ---------------------------------------------------------------------------

/// Whether two scopes name the same place.
pub open spec fn same_place(a: MemoryScope, b: MemoryScope) -> bool {
    match (a, b) {
        (MemoryScope::Global, MemoryScope::Global) => true,
        (MemoryScope::Project(x), MemoryScope::Project(y)) => x@ == y@,
        (
            MemoryScope::Channel { platform: p, chat_id: c },
            MemoryScope::Channel { platform: q, chat_id: d },
        ) => p@ == q@ && c@ == d@,
        (MemoryScope::Session(x), MemoryScope::Session(y)) => x@ == y@,
        _ => false,
    }
}

/// Whether a context allows a scope: it lists one that names the same place.
pub open spec fn context_lists(ctx: MemoryContext, scope: MemoryScope) -> bool {
    exists|k: int|
        0 <= k < ctx.allowed_scopes@.len() && same_place(
            #[trigger] ctx.allowed_scopes@[k],
            scope,
        )
}

/// Whether a memory belongs into every turn of a context: pinned, active, confirmed or
/// written by the user, of kind profile, preference or feedback, in an allowed scope, and
/// without an expiry at or before `now`.
pub open spec fn belongs_in_profile(m: Memory, ctx: MemoryContext, now: i64) -> bool {
    &&& m.pinned
    &&& m.status == MemoryStatus::Active
    &&& m.confidence == MemoryConfidence::Confirmed || m.confidence
        == MemoryConfidence::UserWritten
    &&& m.kind == MemoryKind::Profile || m.kind == MemoryKind::Preference || m.kind
        == MemoryKind::Feedback
    &&& context_lists(ctx, m.scope)
    &&& match m.expires_at {
        Some(at) => now < at,
        None => true,
    }
}

proof fn lemma_same_place(a: MemoryScope, b: MemoryScope)
    ensures
        same_place(a, b) == (a@ == b@),
{
}

proof fn lemma_context_lists(ctx: MemoryContext, scope: MemoryScope)
    ensures
        context_lists(ctx, scope) == scopes_of(ctx.allowed_scopes@).contains(scope@),
{
    let v = scopes_of(ctx.allowed_scopes@);
    if v.contains(scope@) {
        let k = choose|k: int| 0 <= k < v.len() && v[k] == scope@;
        lemma_same_place(ctx.allowed_scopes@[k], scope);
    }
    if context_lists(ctx, scope) {
        let k = choose|k: int|
            0 <= k < ctx.allowed_scopes@.len() && same_place(
                #[trigger] ctx.allowed_scopes@[k],
                scope,
            );
        lemma_same_place(ctx.allowed_scopes@[k], scope);
        assert(v[k] == scope@);
    }
}

/// The profile is complete and holds nothing else: it lists every memory of the library
/// that belongs in it, each once, and no other, the more important before the less, and of
/// equal importance the one updated later first.
pub proof fn profile_is_complete(list: Vec<Memory>, ctx: MemoryContext, now: i64, r: Vec<Memory>)
    requires
        call_ensures(pinned, (&list, &ctx, now), r),
    ensures
        exists|at: Seq<int>|
            {
                &&& at.len() == r@.len()
                &&& #[trigger] at.no_duplicates()
                &&& forall|i: int|
                    #[trigger] at.contains(i) <==> 0 <= i < list@.len() && belongs_in_profile(
                        list@[i],
                        ctx,
                        now,
                    )
                &&& forall|k: int|
                    0 <= k < r@.len() ==> #[trigger] r@[k] == list@[at[k]]
            },
        forall|i: int|
            0 <= i < list@.len() && belongs_in_profile(#[trigger] list@[i], ctx, now)
                ==> r@.contains(list@[i]),
        forall|k: int|
            0 <= k < r@.len() ==> belongs_in_profile(#[trigger] r@[k], ctx, now) && list@.contains(
                r@[k],
            ),
        forall|j: int, k: int|
            0 <= j < k < r@.len() ==> (#[trigger] r@[j]).importance > (#[trigger] r@[k]).importance
                || r@[j].importance == r@[k].importance && r@[j].updated_at >= r@[k].updated_at,
{
    let scopes = scopes_of(ctx.allowed_scopes@);
    let flags = pinnable_flags(list@, scopes, now);
    let keys = importance_keys(list@);
    let at = sorting::selection(flags, keys);
    sorting::selection_is_exact(flags, keys);
    assert forall|i: int| 0 <= i < list@.len() implies #[trigger] flags[i] == belongs_in_profile(
        list@[i],
        ctx,
        now,
    ) by {
        lemma_context_lists(ctx, list@[i].scope);
    }
    assert forall|k: int| 0 <= k < r@.len() implies #[trigger] r@[k] == list@[at[k]] by {}
    assert(at.no_duplicates());
    assert forall|i: int| 0 <= i < list@.len() && belongs_in_profile(
        #[trigger] list@[i],
        ctx,
        now,
    ) implies r@.contains(list@[i]) by {
        assert(flags[i]);
        assert(at.contains(i));
        let k = choose|k: int| 0 <= k < at.len() && at[k] == i;
        assert(r@[k] == list@[i]);
    }
    assert forall|k: int| 0 <= k < r@.len() implies belongs_in_profile(
        #[trigger] r@[k],
        ctx,
        now,
    ) && list@.contains(r@[k]) by {
        assert(at.contains(at[k]));
        assert(flags[at[k]]);
    }
    assert forall|j: int, k: int| 0 <= j < k < r@.len() implies (#[trigger] r@[j]).importance > (
    #[trigger] r@[k]).importance || r@[j].importance == r@[k].importance && r@[j].updated_at
        >= r@[k].updated_at by {
        let a = at[j];
        let b = at[k];
        assert(sorting::key_less(keys[a], keys[b]) || keys[a] == keys[b]);
    }
}

/// One memory alone is eligible exactly where it belongs in the profile.
pub proof fn eligibility_is_by_the_fields(m: Memory, ctx: MemoryContext, now: i64, r: bool)
    requires
        call_ensures(Memory::is_pinnable, (&m, &ctx, now), r),
    ensures
        r == belongs_in_profile(m, ctx, now),
{
    lemma_context_lists(ctx, m.scope);
}

/// A session draws on what is global, on its own scope, and, where its id is a platform,
/// a colon and a chat, on that chat's channel; on nothing else.
pub proof fn sessions_draw_on_their_own_scopes(
    session: &str,
    ctx: MemoryContext,
    scope: MemoryScope,
    platform: Seq<char>,
    chat: Seq<char>,
)
    requires
        call_ensures(MemoryContext::from_session, (session,), ctx),
        session@.contains(':') ==> session@ == platform + seq![':'] + chat && !platform.contains(
            ':',
        ),
    ensures
        ctx.session_id@ == session@,
        context_lists(ctx, scope) <==> match scope {
            MemoryScope::Global => true,
            MemoryScope::Session(id) => id@ == session@,
            MemoryScope::Channel { platform: p, chat_id: c } => session@.contains(':') && p@
                == platform && c@ == chat,
            MemoryScope::Project(_) => false,
        },
{
    reveal_strlit(":");
    assert(":"@ =~= seq![':']);
    lemma_context_lists(ctx, scope);
    let v = session_scopes(session@);
    if session@.contains(':') {
        lemma_colon_first(platform, chat, 0);
        assert(session@.take(platform.len() as int) =~= platform);
        assert(session@.skip(platform.len() as int + 1) =~= chat);
        assert(v[0] == Scope::Global && v[1] == Scope::Channel(platform, chat) && v[2]
            == Scope::Session(session@));
    } else {
        text::lemma_first_from(session@, ":"@, 0);
        if text::first_of(session@, ":"@) is Some {
            let k = text::first_of(session@, ":"@)->0;
            assert(session@.subrange(k, k + 1)[0] == session@[k]);
            assert(session@.contains(':'));
        }
        assert(v[0] == Scope::Global && v[1] == Scope::Session(session@));
    }
}

/// An automated write from a chat session goes to the chat's channel, and from any other
/// session to what is global.
pub proof fn writes_go_to_the_channel(
    session: &str,
    ctx: MemoryContext,
    scope: MemoryScope,
    platform: Seq<char>,
    chat: Seq<char>,
)
    requires
        call_ensures(MemoryContext::from_session, (session,), ctx),
        call_ensures(MemoryContext::write_scope, (&ctx,), scope),
        session@.contains(':') ==> session@ == platform + seq![':'] + chat && !platform.contains(
            ':',
        ),
    ensures
        match scope {
            MemoryScope::Global => !session@.contains(':'),
            MemoryScope::Channel { platform: p, chat_id: c } => session@.contains(':') && p@
                == platform && c@ == chat,
            _ => false,
        },
{
    reveal_strlit(":");
    assert(":"@ =~= seq![':']);
    writes_stay_recallable(session@);
    if session@.contains(':') {
        lemma_colon_first(platform, chat, 0);
        assert(session@.take(platform.len() as int) =~= platform);
        assert(session@.skip(platform.len() as int + 1) =~= chat);
    } else {
        text::lemma_first_from(session@, ":"@, 0);
        if text::first_of(session@, ":"@) is Some {
            let k = text::first_of(session@, ":"@)->0;
            assert(session@.subrange(k, k + 1)[0] == session@[k]);
            assert(session@.contains(':'));
        }
    }
}

} // verus!
