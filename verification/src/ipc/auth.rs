//! The shared secret of the pipe and the one-shot challenge tokens.

use crate::text::{byte_len, byte_length, digit, owned_view, text_view, trim, trimmed};
use rand::RngCore;
use vstd::prelude::*;
use vstd::utf8::*;

verus! {

/// Compare without stopping at the first difference.
pub fn constant_time_eq(a: &[u8], b: &[u8]) -> (equal: bool)
    ensures
        equal == (a@ == b@),
{
    if a.len() != b.len() {
        return false;
    }
    let mut diff: u8 = 0;
    let mut i: usize = 0;
    assert(a@.take(0) =~= b@.take(0));
    while i < a.len()
        invariant
            a@.len() == b@.len(),
            i <= a@.len(),
            diff == 0 <==> a@.take(i as int) == b@.take(i as int),
        decreases a@.len() - i,
    {
        let x: u8 = a[i];
        let y: u8 = b[i];
        let next: u8 = diff | (x ^ y);
        assert(next == 0 <==> diff == 0 && x == y) by (bit_vector)
            requires
                next == diff | (x ^ y),
        ;
        proof {
            let s = a@.take(i + 1);
            let t = b@.take(i + 1);
            assert(s.drop_last() =~= a@.take(i as int));
            assert(t.drop_last() =~= b@.take(i as int));
            if s == t {
                assert(s.drop_last() == t.drop_last() && s.last() == t.last());
            }
            if a@.take(i as int) == b@.take(i as int) && x == y {
                assert(s =~= a@.take(i as int).push(x));
                assert(t =~= b@.take(i as int).push(y));
            }
        }
        diff = next;
        i = i + 1;
    }
    assert(a@.take(a@.len() as int) =~= a@);
    assert(b@.take(b@.len() as int) =~= b@);
    diff == 0
}

/// Two texts are the same where their bytes are.
proof fn lemma_same_bytes(a: Seq<char>, b: Seq<char>)
    ensures
        encode_utf8(a) == encode_utf8(b) <==> a == b,
{
    encode_utf8_decode_utf8(a);
    encode_utf8_decode_utf8(b);
}

/// Compare two texts without stopping at the first difference.
pub fn secret_matches(secret: &str, given: &str) -> (equal: bool)
    ensures
        equal == (secret@ == given@),
{
    proof {
        lemma_same_bytes(secret@, given@);
    }
    constant_time_eq(secret.as_bytes(), given.as_bytes())
}

/// A lower-case hexadecimal digit.
pub open spec fn hex_digit(n: int) -> char {
    if n < 10 {
        digit(n)
    } else {
        (87 + n) as char
    }
}

fn hex_char(n: u8) -> (c: char)
    requires
        n < 16,
    ensures
        c == hex_digit(n as int),
{
    let code: u8 = if n < 10 {
        48 + n
    } else {
        87 + n
    };
    code as char
}

/// Bytes in hexadecimal, two digits each.
pub open spec fn hex(bytes: Seq<u8>) -> Seq<char>
    decreases bytes.len(),
{
    if bytes.len() == 0 {
        Seq::empty()
    } else {
        hex(bytes.drop_last()).push(hex_digit(bytes.last() as int / 16)).push(
            hex_digit(bytes.last() as int % 16),
        )
    }
}

pub fn hex_text(bytes: &[u8]) -> (text: String)
    ensures
        text@ == hex(bytes@),
{
    let mut text = String::new();
    let mut i: usize = 0;
    while i < bytes.len()
        invariant
            i <= bytes@.len(),
            text@ == hex(bytes@.take(i as int)),
        decreases bytes@.len() - i,
    {
        assert(bytes@.take(i + 1).drop_last() =~= bytes@.take(i as int));
        let b: u8 = bytes[i];
        text.push(hex_char(b / 16));
        text.push(hex_char(b % 16));
        i = i + 1;
    }
    assert(bytes@.take(bytes@.len() as int) =~= bytes@);
    text
}

/// Every byte gives two digits.
pub proof fn hex_length(bytes: Seq<u8>)
    ensures
        hex(bytes).len() == 2 * bytes.len(),
    decreases bytes.len(),
{
    if bytes.len() > 0 {
        hex_length(bytes.drop_last());
    }
}

/// `OsRng.fill_bytes` of the `rand` crate: 32 bytes from the system's random
/// source. Nothing is claimed of their values.
#[verifier::external_body]
fn random_bytes() -> (bytes: [u8; 32]) {
    let mut bytes = [0u8; 32];
    rand::rngs::OsRng.fill_bytes(&mut bytes);
    bytes
}

/// A new secret: the hexadecimal form of 32 random bytes.
pub fn generate_ipc_secret() -> (secret: String)
    ensures
        exists|bytes: Seq<u8>| bytes.len() == 32 && secret@ == #[trigger] hex(bytes),
        secret@.len() == 64,
        long_enough(secret@),
{
    let bytes = random_bytes();
    proof {
        hex_length(bytes@);
        generated_secret_is_stable(bytes@);
        assert(bytes@.len() == 32);
    }
    let bytes: &[u8] = &bytes;
    hex_text(bytes)
}

/// Shortest secret that is accepted, in bytes.
pub const MIN_SECRET_LEN: usize = 32;

/// Whether a text is long enough to be a secret.
pub open spec fn long_enough(s: Seq<char>) -> bool {
    byte_len(s) >= MIN_SECRET_LEN
}

/// The secret that a file holds: its content without the white space around,
/// if that is long enough.
pub open spec fn stored_secret(disk: Option<Seq<char>>) -> Option<Seq<char>> {
    match disk {
        Some(content) => if long_enough(trimmed(content)) {
            Some(trimmed(content))
        } else {
            None
        },
        None => None,
    }
}

pub fn adopt_stored_secret(disk: Option<&str>) -> (secret: Option<String>)
    ensures
        owned_view(secret) == stored_secret(text_view(disk)),
{
    match disk {
        Some(content) => {
            let text = trim(content);
            if byte_length(text.as_str()) >= MIN_SECRET_LEN {
                Some(text)
            } else {
                None
            }
        },
        None => None,
    }
}

/// Where the secret of a starting daemon comes from.
pub enum SecretSource {
    /// The secret on disk. `tampered` tells that the environment held another.
    Disk { secret: String, tampered: bool },
    /// The secret of the environment, still to be persisted.
    Environment { secret: String },
    /// There is none yet.
    Generate,
}

/// The environment's secret, if it is long enough.
pub open spec fn environment_secret(env: Option<Seq<char>>) -> Option<Seq<char>> {
    match env {
        Some(s) => if long_enough(s) {
            Some(s)
        } else {
            None
        },
        None => None,
    }
}

/// Where a secret comes from, as contracts speak of it.
pub enum SecretChoice {
    Disk { secret: Seq<char>, tampered: bool },
    Environment { secret: Seq<char> },
    Generate,
}

impl View for SecretSource {
    type V = SecretChoice;

    open spec fn view(&self) -> SecretChoice {
        match *self {
            SecretSource::Disk { secret, tampered } => SecretChoice::Disk {
                secret: secret@,
                tampered,
            },
            SecretSource::Environment { secret } => SecretChoice::Environment { secret: secret@ },
            SecretSource::Generate => SecretChoice::Generate,
        }
    }
}

/// The secret of a starting daemon.
pub open spec fn secret_choice(env: Option<Seq<char>>, disk: Option<Seq<char>>) -> SecretChoice {
    match (stored_secret(disk), environment_secret(env)) {
        (Some(on_disk), in_env) => SecretChoice::Disk {
            secret: on_disk,
            tampered: in_env is Some && in_env->0 != on_disk,
        },
        (None, Some(in_env)) => SecretChoice::Environment { secret: in_env },
        (None, None) => SecretChoice::Generate,
    }
}

/// Choose the secret: one on disk always wins, the environment only fills an
/// empty place.
pub fn choose_ipc_secret(env: Option<&str>, disk: Option<&str>) -> (source: SecretSource)
    ensures
        source@ == secret_choice(text_view(env), text_view(disk)),
        match (stored_secret(text_view(disk)), environment_secret(text_view(env))) {
            (Some(on_disk), in_env) => {
                &&& source matches SecretSource::Disk { secret, tampered }
                &&& secret@ == on_disk
                &&& tampered == (in_env is Some && in_env->0 != on_disk)
            },
            (None, Some(in_env)) => source matches SecretSource::Environment { secret } && secret@
                == in_env,
            (None, None) => source is Generate,
        },
{
    let in_env: Option<&str> = match env {
        Some(s) => if byte_length(s) >= MIN_SECRET_LEN {
            Some(s)
        } else {
            None
        },
        None => None,
    };
    match adopt_stored_secret(disk) {
        Some(secret) => {
            let tampered = match in_env {
                Some(s) => *s != *secret.as_str(),
                None => false,
            };
            SecretSource::Disk { secret, tampered }
        },
        None => match in_env {
            Some(s) => SecretSource::Environment { secret: s.to_owned() },
            None => SecretSource::Generate,
        },
    }
}

/// How the exclusive creation of the secret's file went.
pub enum CreateOutcome {
    /// Created and written.
    Written,
    /// Created, but not written.
    WriteFailed,
    /// Another daemon was first.
    AlreadyExists,
    /// Not created for another reason.
    Failed,
}

/// What to do with a new secret after the attempt to create its file.
pub enum SecretStep {
    Use(String),
    /// Write the file anew, replacing what is there.
    Overwrite,
    GiveUp,
}

/// Which secret to use after the attempt to create its file, if one is settled: the
/// loser of a race uses what the winner wrote.
pub open spec fn settled_secret(
    secret: Seq<char>,
    outcome: CreateOutcome,
    disk: Option<Seq<char>>,
) -> Option<Seq<char>> {
    match outcome {
        CreateOutcome::Written => Some(secret),
        CreateOutcome::WriteFailed => None,
        CreateOutcome::AlreadyExists => stored_secret(disk),
        CreateOutcome::Failed => None,
    }
}

/// Settle on a secret after the attempt to create its file. The loser of a
/// race uses what the winner wrote, which `disk` holds.
pub fn settle_new_secret(secret: &str, outcome: &CreateOutcome, disk: Option<&str>) -> (step:
    SecretStep)
    ensures
        step is Use <==> settled_secret(secret@, *outcome, text_view(disk)) is Some,
        step matches SecretStep::Use(s) ==> settled_secret(secret@, *outcome, text_view(disk))
            == Some(s@),
        step is GiveUp <==> outcome is WriteFailed,
        match outcome {
            CreateOutcome::Written => step matches SecretStep::Use(s) && s@ == secret@,
            CreateOutcome::WriteFailed => step is GiveUp,
            CreateOutcome::AlreadyExists => match stored_secret(text_view(disk)) {
                Some(winner) => step matches SecretStep::Use(s) && s@ == winner,
                None => step is Overwrite,
            },
            CreateOutcome::Failed => step is Overwrite,
        },
{
    match outcome {
        CreateOutcome::Written => SecretStep::Use(secret.to_owned()),
        CreateOutcome::WriteFailed => SecretStep::GiveUp,
        CreateOutcome::AlreadyExists => match adopt_stored_secret(disk) {
            Some(winner) => SecretStep::Use(winner),
            None => SecretStep::Overwrite,
        },
        CreateOutcome::Failed => SecretStep::Overwrite,
    }
}

/// A generated secret is long enough to be accepted again from disk.
pub proof fn generated_secret_is_stable(bytes: Seq<u8>)
    requires
        bytes.len() == 32,
    ensures
        stored_secret(Some(hex(bytes))) == Some(hex(bytes)),
{
    hex_length(bytes);
    lemma_hex_plain(bytes);
    let s = hex(bytes);
    assert(is_ascii_chars(s));
    is_ascii_chars_encode_utf8(s);
    assert(crate::text::trimmed_start(s) == s);
    assert(crate::text::trimmed_end(s) == s);
}

proof fn lemma_hex_plain(bytes: Seq<u8>)
    ensures
        forall|i: int|
            0 <= i < hex(bytes).len() ==> (48 <= (#[trigger] hex(bytes)[i]) as int <= 57 || 97
                <= hex(bytes)[i] as int <= 102),
    decreases bytes.len(),
{
    if bytes.len() > 0 {
        let h = hex(bytes.drop_last());
        let b = bytes.last() as int;
        lemma_hex_plain(bytes.drop_last());
        assert(0 <= b / 16 < 16 && 0 <= b % 16 < 16);
        assert(hex(bytes) =~= h.push(hex_digit(b / 16)).push(hex_digit(b % 16)));
        assert forall|i: int| 0 <= i < hex(bytes).len() implies (48 <= (
        #[trigger] hex(bytes)[i]) as int <= 57 || 97 <= hex(bytes)[i] as int <= 102) by {
            if i < h.len() {
                assert(hex(bytes)[i] == h[i]);
            }
        }
    }
}

/// Seconds that a challenge token lives.
pub const CHALLENGE_TTL_SECS: u64 = 60;

/// One second on the daemon's monotonic clock.
pub const NANOS_PER_SEC: u64 = 1_000_000_000;

/// A challenge token, bound to the method it was issued for.
pub struct ChallengeToken {
    pub token: String,
    pub method: String,
    pub issued_at: u64,
}

/// Mathematical value of a [`ChallengeToken`].
pub struct Challenge {
    pub token: Seq<char>,
    pub method: Seq<char>,
    pub issued_at: u64,
}

/// The place of the one outstanding challenge token.
pub struct ChallengeSlot {
    pub current: Option<ChallengeToken>,
}

impl View for ChallengeSlot {
    type V = Option<Challenge>;

    open spec fn view(&self) -> Option<Challenge> {
        match self.current {
            Some(c) => Some(
                Challenge { token: c.token@, method: c.method@, issued_at: c.issued_at },
            ),
            None => None,
        }
    }
}

/// Whole seconds that have passed since `since`.
pub open spec fn seconds_since(since: u64, now: u64) -> int {
    if now > since {
        (now - since) / NANOS_PER_SEC as int
    } else {
        0
    }
}

/// Whether presenting `token` for `method` at time `now` is accepted.
pub open spec fn redeemable(
    slot: Option<Challenge>,
    token: Seq<char>,
    method: Seq<char>,
    now: u64,
) -> bool {
    slot matches Some(c) && c.token == token && c.method == method && seconds_since(
        c.issued_at,
        now,
    ) < CHALLENGE_TTL_SECS
}

/// A lower-case hexadecimal digit.
pub open spec fn is_hex(c: char) -> bool {
    '0' <= c <= '9' || 'a' <= c <= 'f'
}

/// Whether a text is a random identifier in its hyphenated form: groups of eight,
/// four, four, four and twelve hexadecimal digits, of which two tell the version
/// and the variant.
pub open spec fn is_uuid(s: Seq<char>) -> bool {
    &&& s.len() == 36
    &&& s[8] == '-' && s[13] == '-' && s[18] == '-' && s[23] == '-'
    &&& s[14] == '4'
    &&& s[19] == '8' || s[19] == '9' || s[19] == 'a' || s[19] == 'b'
    &&& forall|i: int|
        0 <= i < 36 && i != 8 && i != 13 && i != 18 && i != 23 ==> is_hex(#[trigger] s[i])
}

/// `Uuid::new_v4` of the `uuid` crate, printed: a random identifier of version 4
/// in its hyphenated form of 36 characters. Which one it is rests on chance.
#[verifier::external_body]
pub(crate) fn fresh_uuid() -> (id: String)
    ensures
        is_uuid(id@),
{
    uuid::Uuid::new_v4().to_string()
}

/// A new identifier for a scan.
pub fn new_scan_id() -> (id: String)
    ensures
        is_uuid(id@),
        id@.len() == 36,
{
    fresh_uuid()
}

impl ChallengeSlot {
    pub fn new() -> (slot: ChallengeSlot)
        ensures
            slot@ is None,
    {
        ChallengeSlot { current: None }
    }

    /// Make `token` the one outstanding token, for `method` alone.
    pub fn issue(&mut self, token: String, method: &str, now: u64)
        ensures
            final(self)@ == Some(Challenge { token: token@, method: method@, issued_at: now }),
    {
        self.current = Some(ChallengeToken { token, method: method.to_owned(), issued_at: now });
    }

    /// Issue a random single-use token for one method.
    pub fn generate_challenge_token(&mut self, method: &str, now: u64) -> (token: String)
        ensures
            is_uuid(token@),
            token@.len() == 36,
            final(self)@ == Some(Challenge { token: token@, method: method@, issued_at: now }),
    {
        let token = fresh_uuid();
        let copy = token.clone();
        self.issue(copy, method, now);
        token
    }

    /// Present a token. Whatever the answer, no token is outstanding after it:
    /// an accepted one is consumed and a mismatch burns it.
    pub fn validate_challenge_token(&mut self, token: &str, expected_method: &str, now: u64) -> (valid:
        bool)
        ensures
            valid == redeemable(old(self)@, token@, expected_method@, now),
            final(self)@ is None,
    {
        let valid = match &self.current {
            Some(c) => {
                let same_token = secret_matches(c.token.as_str(), token);
                let same_method = *c.method.as_str() == *expected_method;
                let age: u64 = if now > c.issued_at {
                    (now - c.issued_at) / NANOS_PER_SEC
                } else {
                    0
                };
                same_token && same_method && age < CHALLENGE_TTL_SECS
            },
            None => false,
        };
        self.current = None;
        valid
    }
}

/// Without an outstanding token nothing is accepted. As every presentation
/// leaves none, a token is accepted at most once.
pub proof fn nothing_outstanding_nothing_accepted(token: Seq<char>, method: Seq<char>, now: u64)
    ensures
        !redeemable(None, token, method, now),
{
}

/// A token is accepted for the method it was issued for and for no other.
pub proof fn token_is_bound_to_its_method(c: Challenge, method: Seq<char>, now: u64)
    requires
        method != c.method,
    ensures
        !redeemable(Some(c), c.token, method, now),
{
}

/// A token lives sixty seconds and no longer.
pub proof fn token_expires(c: Challenge, now: u64)
    ensures
        redeemable(Some(c), c.token, c.method, now) <==> now < c.issued_at
            + CHALLENGE_TTL_SECS * NANOS_PER_SEC,
{
}

/// The secret check of the pipe.
pub struct IpcAuth {
    pub secret: Option<String>,
}

impl IpcAuth {
    /// Whether `auth` is the configured secret; without one nobody passes.
    pub fn validate_ipc_auth(&self, auth: &str) -> (valid: bool)
        ensures
            valid == (owned_view(self.secret) == Some(auth@)),
    {
        match &self.secret {
            Some(secret) => secret_matches(secret.as_str(), auth),
            None => false,
        }
    }
}

/// A secret on disk always wins, and one in the environment that differs from it is
/// told as tampering; the environment fills an empty place, and without either one is
/// made. The white space around a stored secret does not count, and a secret of less
/// than 32 bytes is none.
pub proof fn stored_secret_wins(env: Option<Seq<char>>, disk: Option<Seq<char>>)
    ensures
        ({
            let stored = disk is Some && byte_len(trimmed(disk->0)) >= 32;
            let given = env is Some && byte_len(env->0) >= 32;
            let choice = secret_choice(env, disk);
            &&& stored ==> (choice matches SecretChoice::Disk { secret, tampered } && secret
                == trimmed(disk->0) && (tampered <==> given && env->0 != secret))
            &&& !stored && given ==> choice == (SecretChoice::Environment { secret: env->0 })
            &&& !stored && !given ==> choice == SecretChoice::Generate
        }),
{
}

proof fn lemma_hex_pairs(a: Seq<u8>, b: Seq<u8>)
    ensures
        hex(a + b) == hex(a) + hex(b),
    decreases b.len(),
{
    if b.len() == 0 {
        assert(a + b =~= a);
        assert(hex(a) + hex(b) =~= hex(a));
    } else {
        assert((a + b).drop_last() =~= a + b.drop_last());
        lemma_hex_pairs(a, b.drop_last());
        assert(hex(a + b) =~= hex(a) + hex(b));
    }
}

/// Bytes are written one behind the other, each as two digits that stand for it, in
/// 0 to 9 and a to f.
pub proof fn hex_writes_byte_by_byte(a: Seq<u8>, b: Seq<u8>, byte: u8, n: int)
    requires
        0 <= n < 16,
    ensures
        hex(a + b) == hex(a) + hex(b),
        hex(seq![byte]) == seq![hex_digit(byte as int / 16), hex_digit(byte as int % 16)],
        n < 10 ==> hex_digit(n) as int == '0' as int + n,
        n >= 10 ==> hex_digit(n) as int == 'a' as int + n - 10,
{
    lemma_hex_pairs(a, b);
    assert(seq![byte].drop_last() =~= Seq::<u8>::empty());
    assert(hex(seq![byte].drop_last()) =~= Seq::<char>::empty());
    assert(hex(seq![byte]) =~= seq![hex_digit(byte as int / 16), hex_digit(byte as int % 16)]);
}

/// A token is accepted where it is the outstanding one, for the method it was issued
/// for, within a minute; any one of these missing, it is not.
pub proof fn token_is_redeemed_once_for_its_method(
    c: Challenge,
    token: Seq<char>,
    method: Seq<char>,
    now: u64,
)
    ensures
        redeemable(Some(c), token, method, now) <==> token == c.token && method == c.method && now
            < c.issued_at + 60_000_000_000,
{
}

/// A secret that was written is used, and one that could not be written is not; where
/// another was there first, both sides of the race use that one.
pub proof fn race_settles_on_one_secret(
    secret: Seq<char>,
    outcome: CreateOutcome,
    disk: Option<Seq<char>>,
)
    ensures
        outcome is Written ==> settled_secret(secret, outcome, disk) == Some(secret),
        (outcome is AlreadyExists && disk is Some && byte_len(trimmed(disk->0)) >= 32)
            ==> settled_secret(secret, outcome, disk) == Some(trimmed(disk->0)),
        outcome is WriteFailed || outcome is Failed ==> settled_secret(secret, outcome, disk)
            is None,
{
}

/// A token is written in five groups of hexadecimal digits with hyphens between them.
pub proof fn tokens_have_five_groups(s: Seq<char>, i: int)
    requires
        is_uuid(s),
        0 <= i < 36,
    ensures
        s.len() == 36,
        i == 8 || i == 13 || i == 18 || i == 23 ==> s[i] == '-',
        !(i == 8 || i == 13 || i == 18 || i == 23) ==> ('0' <= s[i] <= '9' || 'a' <= s[i] <= 'f'),
        s[14] == '4',
{
    if !(i == 8 || i == 13 || i == 18 || i == 23) {
        assert(is_hex(s[i]));
    }
}

} // verus!
