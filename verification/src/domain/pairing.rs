//! Channel pairing: an unknown sender on a message platform must be approved from
//! the host before the agent talks to them.
//!
//! The first message from an unpaired sender gets a short code as the only reply;
//! someone on the host approves the code, and from the next message on the sender
//! is admitted. The code is never stored in plain text, only its salted digest.
use crate::number;
use crate::system;
use crate::text;
use sha2::Digest;
use vstd::prelude::*;
use vstd::string::*;
use vstd::utf8::*;

verus! {

/// A pending code is only approvable for this long, in seconds.
pub const PAIRING_CODE_TTL_SECS: i64 = 3600;

/// A sender is issued at most one fresh code per this window, in seconds.
pub const PAIRING_RATE_LIMIT_SECS: i64 = 600;

/// Cap on distinct senders awaiting approval on one platform at once.
pub const MAX_PENDING_PER_PLATFORM: usize = 3;

/// Wrong codes tolerated before the approve path locks.
pub const APPROVE_MAX_FAILURES: i64 = 5;

/// How long the approve path stays locked after too many failures, in seconds.
pub const APPROVE_LOCKOUT_SECS: i64 = 3600;

/// Length of a code.
pub const CODE_LEN: usize = 8;

/// The characters of a code: capitals and digits without the easily confused.
pub const CODE_ALPHABET: &'static str = "ABCDEFGHJKMNPQRSTUVWXYZ23456789";

/// How many characters a code can be made of.
pub const CODE_ALPHABET_LEN: usize = 31;

#[derive(Debug, Clone, Copy, PartialEq, Eq, Structural)]
pub enum PairingStatus {
    Pending,
    Approved,
}

impl PairingStatus {
    /// The word that stands for it.
    pub open spec fn word(self) -> Seq<char> {
        match self {
            PairingStatus::Pending => "pending"@,
            PairingStatus::Approved => "approved"@,
        }
    }

    pub fn as_str(&self) -> (r: &'static str)
        ensures
            r@ == self.word(),
    {
        match self {
            PairingStatus::Pending => "pending",
            PairingStatus::Approved => "approved",
        }
    }
}

/// The status that a word names; anything but `approved` means pending.
pub open spec fn pairing_status_of(word: Seq<char>) -> PairingStatus {
    if word == "approved"@ {
        PairingStatus::Approved
    } else {
        PairingStatus::Pending
    }
}

/// The status that a word names; anything but `approved` means pending.
pub fn parse_pairing_status(s: &str) -> (r: PairingStatus)
    ensures
        r == pairing_status_of(s@),
{
    if text::same(s, "approved") {
        PairingStatus::Approved
    } else {
        PairingStatus::Pending
    }
}

/// The word for a status parses back to the status.
pub proof fn pairing_status_words_parse_back(s: PairingStatus)
    ensures
        pairing_status_of(s.word()) == s,
{
    reveal_strlit("pending");
    reveal_strlit("approved");
    assert("pending"@.len() == 7 && "approved"@.len() == 8);
}

#[derive(Debug)]
pub struct PairingRequest {
    /// One row per sender: `platform:sender`.
    pub id: String,
    pub platform: String,
    pub sender_id: String,
    /// Chat the request came from.
    pub chat_id: String,
    /// Salted digest of the code, in hexadecimal.
    pub code_hash: String,
    /// The row's own salt, in hexadecimal.
    pub salt: String,
    pub status: PairingStatus,
    pub created_at: i64,
}

/// The SHA-256 digest of a byte sequence.
pub uninterp spec fn sha256(data: Seq<u8>) -> Seq<u8>;

/// `sha2::Sha256` fed with two pieces: the 32 bytes of the digest of the two
/// pieces one after the other, which is a function of those bytes.
#[verifier::external_body]
fn sha256_of(first: &[u8], second: &[u8]) -> (r: Vec<u8>)
    ensures
        r@ == sha256(first@ + second@),
        r@.len() == 32,
{
    let mut hasher = sha2::Sha256::new();
    hasher.update(first);
    hasher.update(second);
    hasher.finalize().to_vec()
}

/// Bytes in hexadecimal, two digits each.
pub open spec fn hex_text(bytes: Seq<u8>) -> Seq<char>
    decreases bytes.len(),
{
    if bytes.len() == 0 {
        Seq::empty()
    } else {
        hex_text(bytes.drop_last()) + number::hex_digits(bytes.last() as nat, 2)
    }
}

/// Bytes in hexadecimal, two digits each.
pub fn hex(bytes: &Vec<u8>) -> (r: String)
    ensures
        r@ == hex_text(bytes@),
{
    let mut out = String::new();
    let mut i: usize = 0;
    while i < bytes.len()
        invariant
            i <= bytes.len(),
            out@ == hex_text(bytes@.take(i as int)),
        decreases bytes.len() - i,
    {
        assert(bytes@.take(i + 1).drop_last() =~= bytes@.take(i as int));
        out.push_str(&number::write_hex(bytes[i] as u64, 2));
        i = i + 1;
    }
    assert(bytes@.take(i as int) =~= bytes@);
    out
}

proof fn lemma_hex_len(bytes: Seq<u8>)
    ensures
        hex_text(bytes).len() == 2 * bytes.len(),
    decreases bytes.len(),
{
    if bytes.len() > 0 {
        lemma_hex_len(bytes.drop_last());
        number::lemma_hex_pair(bytes.last() as nat, bytes.last() as nat);
    }
}

proof fn lemma_hex_injective(a: Seq<u8>, b: Seq<u8>)
    requires
        hex_text(a) == hex_text(b),
    ensures
        a == b,
    decreases a.len(),
{
    lemma_hex_len(a);
    lemma_hex_len(b);
    if a.len() > 0 {
        let x = hex_text(a.drop_last());
        let y = hex_text(b.drop_last());
        let p = number::hex_digits(a.last() as nat, 2);
        let q = number::hex_digits(b.last() as nat, 2);
        lemma_hex_len(a.drop_last());
        lemma_hex_len(b.drop_last());
        number::lemma_hex_pair(a.last() as nat, b.last() as nat);
        number::lemma_hex_pair(b.last() as nat, a.last() as nat);
        assert(x =~= (x + p).take(x.len() as int));
        assert(y =~= (y + q).take(y.len() as int));
        assert(p =~= (x + p).skip(x.len() as int));
        assert(q =~= (y + q).skip(y.len() as int));
        lemma_hex_injective(a.drop_last(), b.drop_last());
        assert(a =~= a.drop_last().push(a.last()));
        assert(b =~= b.drop_last().push(b.last()));
    } else {
        assert(a =~= b);
    }
}

/// How long a digest is in hexadecimal.
pub const DIGEST_LEN: usize = 64;

/// The salted digest of a code, in hexadecimal.
pub open spec fn digest_text(salt: Seq<char>, code: Seq<char>) -> Seq<char> {
    hex_text(sha256(encode_utf8(salt) + encode_utf8(code)))
}

/// Salted SHA-256 of `code`, in hexadecimal.
pub fn hash_code(salt: &str, code: &str) -> (r: String)
    ensures
        r@ == digest_text(salt@, code@),
        r@.len() == DIGEST_LEN,
{
    let digest = sha256_of(salt.as_bytes(), code.as_bytes());
    proof {
        lemma_hex_len(digest@);
    }
    hex(&digest)
}

/// Whether `code` digests (with `salt`) to `code_hash`, compared in constant time.
pub fn verify_code(salt: &str, code_hash: &str, code: &str) -> (r: bool)
    ensures
        r == (digest_text(salt@, code@) == code_hash@),
{
    ct_eq(&hash_code(salt, code), code_hash)
}

/// The code that random bytes stand for: one character of the alphabet for each
/// of the first bytes.
pub open spec fn code_text(bytes: Seq<u8>) -> Seq<char> {
    Seq::new(
        text::head_len(bytes.len(), CODE_LEN as nat),
        |i: int| CODE_ALPHABET@[bytes[i] as int % 31],
    )
}

/// The code that random bytes stand for.
pub fn code_from(bytes: &Vec<u8>) -> (r: String)
    ensures
        r@ == code_text(bytes@),
{
    proof {
        reveal_strlit("ABCDEFGHJKMNPQRSTUVWXYZ23456789");
    }
    let mut out = String::new();
    let mut i: usize = 0;
    let n: usize = if bytes.len() < CODE_LEN {
        bytes.len()
    } else {
        CODE_LEN
    };
    while i < n
        invariant
            i <= n <= bytes@.len(),
            n == text::head_len(bytes@.len(), CODE_LEN as nat),
            CODE_ALPHABET@.len() == 31,
            out@ == code_text(bytes@).take(i as int),
        decreases n - i,
    {
        out.push(CODE_ALPHABET.get_char(bytes[i] as usize % CODE_ALPHABET_LEN));
        i = i + 1;
    }
    assert(code_text(bytes@).take(i as int) =~= code_text(bytes@));
    out
}

impl PairingRequest {
    /// Whether `self` is a fresh pending request for a code with a salt.
    pub open spec fn is_minted(
        self,
        platform: Seq<char>,
        sender: Seq<char>,
        chat: Seq<char>,
        code: Seq<char>,
        salt: Seq<char>,
        now: i64,
    ) -> bool {
        &&& self.id@ == platform + ":"@ + sender
        &&& self.platform@ == platform
        &&& self.sender_id@ == sender
        &&& self.chat_id@ == chat
        &&& self.code_hash@ == digest_text(salt, code)
        &&& self.code_hash@.len() == DIGEST_LEN
        &&& self.salt@ == salt
        &&& self.status == PairingStatus::Pending
        &&& self.created_at == now
    }

    /// A pending request for the given code, salt and time.
    pub fn of_code(
        platform: &str,
        sender_id: &str,
        chat_id: &str,
        code: &str,
        salt: String,
        now: i64,
    ) -> (r: Self)
        ensures
            r.is_minted(platform@, sender_id@, chat_id@, code@, salt@, now),
    {
        let mut id = platform.to_owned();
        id.push_str(":");
        id.push_str(sender_id);
        PairingRequest {
            id,
            platform: platform.to_owned(),
            sender_id: sender_id.to_owned(),
            chat_id: chat_id.to_owned(),
            code_hash: hash_code(&salt, code),
            salt,
            status: PairingStatus::Pending,
            created_at: now,
        }
    }

    /// Mint a fresh pending request. Returns the row to keep (digest and salt
    /// only) and the plain code to send to the sender.
    pub fn mint(platform: &str, sender_id: &str, chat_id: &str) -> (r: (Self, String))
        ensures
            exists|bytes: Seq<u8>, salt: Seq<char>, now: i64|
                {
                    &&& bytes.len() == 16
                    &&& system::are_drawn(bytes)
                    &&& system::is_drawn(salt)
                    &&& system::clock_reads(now as int)
                    &&& r.1@ == #[trigger] code_text(bytes)
                    &&& system::is_token(salt)
                    &&& #[trigger] r.0.is_minted(
                        platform@,
                        sender_id@,
                        chat_id@,
                        r.1@,
                        salt,
                        now,
                    )
                },
    {
        let bytes = system::draw_bytes();
        let code = code_from(&bytes);
        let salt = system::draw_token();
        let ghost given = salt@;
        let now: i64 = system::now();
        let request = PairingRequest::of_code(platform, sender_id, chat_id, &code, salt, now);
        let r = (request, code);
        assert(r.1@ == code_text(bytes@));
        assert(r.0.is_minted(platform@, sender_id@, chat_id@, r.1@, given, now));
        r
    }

    /// A pending request past the life of its code. Approved pairings never
    /// expire.
    pub open spec fn expired(self, now: i64) -> bool {
        self.status == PairingStatus::Pending && now - self.created_at > PAIRING_CODE_TTL_SECS
    }

    /// A pending request past the life of its code. Approved pairings never
    /// expire.
    pub fn is_expired(&self, now: i64) -> (r: bool)
        ensures
            r == self.expired(now),
    {
        self.status == PairingStatus::Pending && now as i128 - self.created_at as i128
            > PAIRING_CODE_TTL_SECS as i128
    }
}

/// Equality of texts in constant time: every byte is compared, whatever the
/// earlier ones gave.
pub fn ct_eq(a: &str, b: &str) -> (r: bool)
    ensures
        r == (a@ == b@),
{
    let x = a.as_bytes();
    let y = b.as_bytes();
    proof {
        encode_utf8_decode_utf8(a@);
        encode_utf8_decode_utf8(b@);
    }
    if x.len() != y.len() {
        return false;
    }
    let mut diff: u8 = 0;
    let mut i: usize = 0;
    while i < x.len()
        invariant
            i <= x.len() == y.len(),
            diff == 0 <==> (forall|k: int| 0 <= k < i ==> x@[k] == y@[k]),
        decreases x.len() - i,
    {
        let p: u8 = x[i];
        let q: u8 = y[i];
        let before: u8 = diff;
        diff = diff | (p ^ q);
        assert(diff == 0 <==> (before == 0 && p == q)) by (bit_vector)
            requires
                diff == before | (p ^ q),
        ;
        i = i + 1;
        proof {
            assert(x@[i - 1] == p && y@[i - 1] == q);
        }
    }
    if diff == 0 {
        assert(x@ =~= y@);
    } else {
        assert(x@ != y@);
    }
    diff == 0
}

/// Outcome of approving a code from the host.
#[derive(Debug)]
pub enum ApproveOutcome {
    Approved(PairingRequest),
    /// No pending, unexpired request matched the code.
    NotFound,
    /// Too many recent failures; the approve path is locked.
    Locked { retry_after_secs: i64 },
}

/// Whether one more sender may await approval on a platform where `pending` do.
pub fn has_room(pending: usize) -> (r: bool)
    ensures
        r == (pending < MAX_PENDING_PER_PLATFORM),
{
    pending < MAX_PENDING_PER_PLATFORM
}

/// For how many more seconds approving is locked, after `failures` wrong codes of which
/// the last came at `last`; none where it is open. A clock that was set back counts as
/// standing still.
pub open spec fn lock_left(failures: int, last: int, now: int) -> Option<int> {
    let passed = if now < last {
        0
    } else {
        now - last
    };
    if failures >= APPROVE_MAX_FAILURES && passed < APPROVE_LOCKOUT_SECS {
        Some(APPROVE_LOCKOUT_SECS - passed)
    } else {
        None
    }
}

/// Whether approving is locked at `now`, after `failures` wrong codes of which the last
/// came at `last`: the refusal, or none where a code may be tried.
pub fn lockout(failures: i64, last: i64, now: i64) -> (r: Option<ApproveOutcome>)
    ensures
        match r {
            Some(ApproveOutcome::Locked { retry_after_secs }) => lock_left(
                failures as int,
                last as int,
                now as int,
            ) == Some(retry_after_secs as int),
            Some(_) => false,
            None => lock_left(failures as int, last as int, now as int) is None,
        },
{
    let passed: i128 = if now < last {
        0
    } else {
        now as i128 - last as i128
    };
    if failures >= APPROVE_MAX_FAILURES && passed < APPROVE_LOCKOUT_SECS as i128 {
        let left: i64 = (APPROVE_LOCKOUT_SECS as i128 - passed) as i64;
        Some(ApproveOutcome::Locked { retry_after_secs: left })
    } else {
        None
    }
}

// ---------------------------------------------------------------------------
// Laws
// ---------------------------------------------------------------------------

/// Senders who await approval on a platform never become more than the cap, however many
/// ask, where each is taken in only while there is room: `counts` is how many wait after
/// each change, and some may leave at any time.
pub proof fn waiting_senders_stay_capped(counts: Seq<nat>)
    requires
        counts.len() > 0,
        counts[0] == 0,
        forall|i: int|
            0 <= i < counts.len() - 1 ==> {
                ||| counts[i + 1] <= #[trigger] counts[i]
                ||| counts[i] < MAX_PENDING_PER_PLATFORM && counts[i + 1] == counts[i] + 1
            },
    ensures
        forall|i: int| 0 <= i < counts.len() ==> #[trigger] counts[i] <= MAX_PENDING_PER_PLATFORM,
    decreases counts.len(),
{
    if counts.len() > 1 {
        let init = counts.drop_last();
        let n = counts.len() - 1;
        assert forall|i: int| 0 <= i < init.len() - 1 implies {
            ||| init[i + 1] <= #[trigger] init[i]
            ||| init[i] < MAX_PENDING_PER_PLATFORM && init[i + 1] == init[i] + 1
        } by {
            assert(counts[i] == init[i] && counts[i + 1] == init[i + 1]);
        }
        waiting_senders_stay_capped(init);
        assert(counts[n - 1] == init[n - 1]);
        assert(init[n - 1] <= MAX_PENDING_PER_PLATFORM);
        assert forall|i: int| 0 <= i < counts.len() implies #[trigger] counts[i]
            <= MAX_PENDING_PER_PLATFORM by {
            if i < n {
                assert(init[i] == counts[i]);
            }
        }
    }
}

/// Approving is open before the last wrong code that is tolerated, locked for the whole
/// hour from it, and open again after.
pub proof fn wrong_codes_lock_for_an_hour(failures: int, last: int, now: int)
    ensures
        failures < APPROVE_MAX_FAILURES ==> lock_left(failures, last, now) is None,
        failures >= APPROVE_MAX_FAILURES && last <= now < last + APPROVE_LOCKOUT_SECS ==> lock_left(
            failures,
            last,
            now,
        ) == Some(last + APPROVE_LOCKOUT_SECS - now),
        now >= last + APPROVE_LOCKOUT_SECS ==> lock_left(failures, last, now) is None,
{
}

/// A minted code verifies against the row that was kept for it, and only a code
/// with the same digest does.
pub proof fn minted_code_verifies(
    request: PairingRequest,
    platform: Seq<char>,
    sender: Seq<char>,
    chat: Seq<char>,
    code: Seq<char>,
    salt: Seq<char>,
    now: i64,
    other: Seq<char>,
)
    requires
        request.is_minted(platform, sender, chat, code, salt, now),
    ensures
        digest_text(request.salt@, code) == request.code_hash@,
        digest_text(request.salt@, other) == request.code_hash@ <==> digest_text(salt, other)
            == digest_text(salt, code),
{
}

/// The row that is kept for a minted code holds the code nowhere: neither its digest nor
/// its salt is the code.
pub proof fn plain_codes_are_not_kept(
    request: PairingRequest,
    platform: Seq<char>,
    sender: Seq<char>,
    chat: Seq<char>,
    bytes: Seq<u8>,
    salt: Seq<char>,
    now: i64,
)
    requires
        bytes.len() == 16,
        system::is_token(salt),
        request.is_minted(platform, sender, chat, code_text(bytes), salt, now),
    ensures
        request.code_hash@ != code_text(bytes),
        request.salt@ != code_text(bytes),
{
}

/// A code other than the minted one verifies only where SHA-256 gives two different byte
/// sequences one digest.
pub proof fn wrong_codes_need_a_collision(
    request: PairingRequest,
    platform: Seq<char>,
    sender: Seq<char>,
    chat: Seq<char>,
    code: Seq<char>,
    salt: Seq<char>,
    now: i64,
    other: Seq<char>,
)
    requires
        request.is_minted(platform, sender, chat, code, salt, now),
        other != code,
    ensures
        encode_utf8(salt) + encode_utf8(other) != encode_utf8(salt) + encode_utf8(code),
        digest_text(request.salt@, other) == request.code_hash@ <==> sha256(
            encode_utf8(salt) + encode_utf8(other),
        ) == sha256(encode_utf8(salt) + encode_utf8(code)),
{
    let s = encode_utf8(salt);
    let x = encode_utf8(other);
    let y = encode_utf8(code);
    encode_utf8_decode_utf8(other);
    encode_utf8_decode_utf8(code);
    assert(x =~= (s + x).skip(s.len() as int));
    assert(y =~= (s + y).skip(s.len() as int));
    if digest_text(salt, other) == digest_text(salt, code) {
        lemma_hex_injective(sha256(s + x), sha256(s + y));
    }
}

/// A code has eight characters, all from the unambiguous alphabet: never a zero,
/// an O, a one, an I or an L.
pub proof fn codes_are_unambiguous(bytes: Seq<u8>)
    requires
        bytes.len() == 16,
    ensures
        code_text(bytes).len() == CODE_LEN,
        forall|i: int|
            0 <= i < CODE_LEN ==> {
                let c = #[trigger] code_text(bytes)[i];
                &&& CODE_ALPHABET@.contains(c)
                &&& c != '0' && c != 'O' && c != '1' && c != 'I' && c != 'L'
            },
{
    reveal_strlit("ABCDEFGHJKMNPQRSTUVWXYZ23456789");
    let a = "ABCDEFGHJKMNPQRSTUVWXYZ23456789"@;
    assert(a.len() == 31);
    assert forall|i: int| 0 <= i < CODE_LEN implies {
        let c = #[trigger] code_text(bytes)[i];
        &&& CODE_ALPHABET@.contains(c)
        &&& c != '0' && c != 'O' && c != '1' && c != 'I' && c != 'L'
    } by {
        let k = bytes[i] as int % 31;
        assert(0 <= k < 31);
        assert(CODE_ALPHABET@[k] == a[k]);
        lemma_alphabet(k);
    }
}

proof fn lemma_alphabet(k: int)
    requires
        0 <= k < 31,
    ensures
        ({
            let c = "ABCDEFGHJKMNPQRSTUVWXYZ23456789"@[k];
            c != '0' && c != 'O' && c != '1' && c != 'I' && c != 'L'
        }),
{
    reveal_strlit("ABCDEFGHJKMNPQRSTUVWXYZ23456789");
}

/// An approved pairing never expires, and a pending one does exactly when its
/// code has outlived its time.
pub proof fn approval_outlives_the_code(request: PairingRequest, now: i64)
    ensures
        request.status == PairingStatus::Approved ==> !request.expired(now),
        request.status == PairingStatus::Pending ==> (request.expired(now) <==> now
            - request.created_at > 3600),
{
}

} // verus!
