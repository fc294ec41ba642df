//! Actor bearer tokens: their text form, strict parsing, and argon2id credentials.
//!
//! A token reads `hm1.<actor id>.<64 lowercase hex digits>`; only an argon2id
//! hash of the secret part is ever stored.

use argon2::{PasswordHasher, PasswordVerifier};
use vstd::prelude::*;

use crate::automation_compiler::{all_digits, is_digit};
use crate::digest::{hex, hex_digit, hex_text, lemma_hex_text_shape};
use crate::policy::{Actor, ActorGrant};
use crate::ports::{is_lower_hex_char, lower_hex_char};

verus! {

/// Number of random secret bytes behind a bearer token.
pub const SECRET_BYTES: usize = 32;

/// Number of random salt bytes behind a credential hash.
pub const SALT_BYTES: usize = 16;

/// The token version prefix `hm1`.
pub open spec fn token_prefix() -> Seq<char> {
    seq!['h', 'm', '1']
}

/// Decimal digits of `n`, most significant first, without leading zeros.
pub open spec fn decimal_chars(n: nat) -> Seq<char>
    decreases n,
{
    if n < 10 {
        seq![hex_digit(n as u8)]
    } else {
        decimal_chars(n / 10).push(hex_digit((n % 10) as u8))
    }
}

/// The number a run of decimal digits denotes.
pub open spec fn digits_value(s: Seq<char>) -> nat
    decreases s.len(),
{
    if s.len() == 0 {
        0
    } else {
        digits_value(s.drop_last()) * 10 + ((s.last() as int) - ('0' as int)) as nat
    }
}

/// The text of the bearer token for `actor_id` and hexadecimal `secret`.
pub open spec fn token_text(actor_id: u64, secret: Seq<char>) -> Seq<char> {
    token_prefix() + seq!['.'] + decimal_chars(actor_id as nat) + seq!['.'] + secret
}

/// Whether no character of `s` is a dot.
pub open spec fn dot_free(s: Seq<char>) -> bool {
    forall|i: int| 0 <= i < s.len() ==> #[trigger] s[i] != '.'
}

/// A non-empty digit run whose value fits in a `u64`.
pub open spec fn actor_segment_valid(a: Seq<char>) -> bool {
    &&& a.len() > 0
    &&& all_digits(a)
    &&& digits_value(a) <= u64::MAX
}

/// Exactly 64 lowercase hexadecimal digits.
pub open spec fn secret_segment_valid(s: Seq<char>) -> bool {
    &&& s.len() == 2 * SECRET_BYTES
    &&& forall|i: int| 0 <= i < s.len() ==> is_lower_hex_char(#[trigger] s[i])
}

/// Whether `value` is the prefix, a dot, `actor`, a dot and `secret`, with no
/// further dots.
pub open spec fn token_splits_as(value: Seq<char>, actor: Seq<char>, secret: Seq<char>) -> bool {
    &&& dot_free(actor)
    &&& dot_free(secret)
    &&& value == token_prefix() + seq!['.'] + actor + seq!['.'] + secret
}

/// Whether `value` is a well-formed token naming `actor_id` with `secret`.
pub open spec fn token_accepted(value: Seq<char>, actor_id: u64, secret: Seq<char>) -> bool {
    &&& secret_segment_valid(secret)
    &&& exists|a: Seq<char>|
        #[trigger] token_splits_as(value, a, secret) && actor_segment_valid(a) && digits_value(a)
            == actor_id
}

/// One-time bearer token; its text is only handed out through `expose`.
#[derive(Clone)]
pub struct ActorToken(String);

impl View for ActorToken {
    type V = Seq<char>;

    closed spec fn view(&self) -> Seq<char> {
        self.0@
    }
}

impl ActorToken {
    /// Exposes the token only for one-time operator delivery or authentication.
    pub fn expose(&self) -> (s: &str)
        ensures
            s@ == self@,
    {
        self.0.as_str()
    }

    /// Redacted debug rendering; the token text never appears in it.
    pub fn debug_string(&self) -> (s: String)
        ensures
            s@ == "ActorToken([REDACTED])"@,
    {
        String::from_str("ActorToken([REDACTED])")
    }
}

/// Generic authentication failure that does not reveal actor existence or state.
#[derive(Clone, Copy, Debug, PartialEq, Eq, Structural)]
pub struct ActorAuthenticationError;

impl ActorAuthenticationError {
    /// The error's display text.
    pub fn message(&self) -> (s: &'static str)
        ensures
            s@ == "invalid actor credentials"@,
    {
        "invalid actor credentials"
    }
}

/// Actor bootstrap, rotation, disable, or grant-management failure.
#[derive(Clone, Debug, PartialEq, Eq)]
pub enum ActorManagementError {
    /// Durable actor state could not be read or written; the text describes why.
    Repository(String),
    /// Requested actor does not exist.
    NotFound,
    /// Password-hash generation failed without exposing token material.
    Hashing,
}

impl ActorManagementError {
    /// The error's display text.
    pub fn message(&self) -> (s: &'static str)
        ensures
            s@ == (match self {
                ActorManagementError::Repository(_) => "actor repository operation failed"@,
                ActorManagementError::NotFound => "actor not found"@,
                ActorManagementError::Hashing => "actor credential hashing failed"@,
            }),
    {
        match self {
            ActorManagementError::Repository(_) => "actor repository operation failed",
            ActorManagementError::NotFound => "actor not found",
            ActorManagementError::Hashing => "actor credential hashing failed",
        }
    }
}

/// The actor and secret named by a well-formed bearer token.
#[derive(Clone, Debug)]
pub struct ParsedToken {
    pub actor_id: u64,
    pub secret: String,
}

proof fn lemma_hex_digit_decimal(d: nat)
    requires
        d < 10,
    ensures
        is_digit(hex_digit(d as u8)),
        (hex_digit(d as u8) as int) - ('0' as int) == d,
        hex_digit(d as u8) != '.',
{
}

/// The decimal text of a number is a non-empty, dot-free digit run denoting it.
pub proof fn lemma_decimal_chars_value(n: nat)
    ensures
        decimal_chars(n).len() > 0,
        all_digits(decimal_chars(n)),
        dot_free(decimal_chars(n)),
        digits_value(decimal_chars(n)) == n,
    decreases n,
{
    if n < 10 {
        lemma_hex_digit_decimal(n);
        assert(decimal_chars(n).drop_last() =~= Seq::<char>::empty());
        assert(digits_value(decimal_chars(n)) == digits_value(Seq::<char>::empty()) * 10 + n);
    } else {
        lemma_decimal_chars_value(n / 10);
        lemma_hex_digit_decimal(n % 10);
        let s = decimal_chars(n);
        assert(s.drop_last() =~= decimal_chars(n / 10));
        assert(s.last() == hex_digit((n % 10) as u8));
        assert((n / 10) * 10 + n % 10 == n);
        assert(digits_value(s) == digits_value(decimal_chars(n / 10)) * 10 + (n % 10));
        assert forall|i: int| 0 <= i < s.len() implies is_digit(#[trigger] s[i]) && s[i] != '.' by {
            if i < s.len() - 1 {
                assert(s[i] == decimal_chars(n / 10)[i]);
            }
        }
    }
}

proof fn lemma_digits_value_prefix(s: Seq<char>, j: int, k: int)
    requires
        0 <= j <= k <= s.len(),
        all_digits(s),
    ensures
        digits_value(s.take(j)) <= digits_value(s.take(k)),
    decreases k - j,
{
    if j < k {
        lemma_digits_value_prefix(s, j, k - 1);
        assert(s.take(k).drop_last() =~= s.take(k - 1));
        assert(is_digit(s[k - 1]));
    }
}

/// Appends the decimal text of `n`.
pub(crate) fn push_decimal(out: &mut String, n: u64)
    ensures
        final(out)@ == old(out)@ + decimal_chars(n as nat),
    decreases n,
{
    if n >= 10 {
        push_decimal(out, n / 10);
    }
    let d = (n % 10) as u8;
    out.push(crate::digest::nibble_char(d));
    assert(old(out)@ + decimal_chars(n as nat) =~= if n >= 10 {
        old(out)@ + decimal_chars((n / 10) as nat) + seq![hex_digit(d)]
    } else {
        old(out)@ + seq![hex_digit(d)]
    });
}

/// Parses a non-empty digit run that fits in a `u64`.
fn parse_actor_id(s: &str) -> (r: Option<u64>)
    ensures
        match r {
            Some(v) => actor_segment_valid(s@) && v == digits_value(s@),
            None => !actor_segment_valid(s@),
        },
{
    let n = s.unicode_len();
    if n == 0 {
        return None;
    }
    let mut acc: u64 = 0;
    let mut i: usize = 0;
    while i < n
        invariant
            n == s@.len(),
            i <= n,
            forall|j: int| 0 <= j < i ==> is_digit(#[trigger] s@[j]),
            acc == digits_value(s@.take(i as int)),
        decreases n - i,
    {
        let c = s.get_char(i);
        if !('0' <= c && c <= '9') {
            return None;
        }
        let d = (c as u32 - '0' as u32) as u64;
        assert(s@.take(i + 1).drop_last() =~= s@.take(i as int));
        if acc > (u64::MAX - d) / 10 {
            proof {
                assert(digits_value(s@.take(i + 1)) > u64::MAX);
                if all_digits(s@) {
                    lemma_digits_value_prefix(s@, i + 1, n as int);
                    assert(s@.take(n as int) =~= s@);
                }
            }
            return None;
        }
        acc = acc * 10 + d;
        i = i + 1;
    }
    assert(s@.take(n as int) =~= s@);
    Some(acc)
}

/// The first dot at or after `from`.
fn find_dot(s: &str, from: usize) -> (r: Option<usize>)
    requires
        from <= s@.len(),
    ensures
        match r {
            Some(i) => from <= i < s@.len() && s@[i as int] == '.' && forall|j: int|
                from <= j < i ==> #[trigger] s@[j] != '.',
            None => forall|j: int| from <= j < s@.len() ==> #[trigger] s@[j] != '.',
        },
{
    let n = s.unicode_len();
    let mut i = from;
    while i < n
        invariant
            n == s@.len(),
            from <= i <= n,
            forall|j: int| from <= j < i ==> #[trigger] s@[j] != '.',
        decreases n - i,
    {
        if s.get_char(i) == '.' {
            return Some(i);
        }
        i = i + 1;
    }
    None
}

/// Where the dots of a split token stand, and what lies between them.
proof fn lemma_split_positions(value: Seq<char>, a: Seq<char>, secret: Seq<char>)
    requires
        token_splits_as(value, a, secret),
    ensures
        value.len() == 5 + a.len() + secret.len(),
        value[0] == 'h' && value[1] == 'm' && value[2] == '1',
        value[3] == '.',
        value[4 + a.len() as int] == '.',
        forall|j: int| 4 <= j < 4 + a.len() ==> #[trigger] value[j] != '.',
        forall|j: int| 5 + a.len() <= j < value.len() ==> #[trigger] value[j] != '.',
        a == value.subrange(4, 4 + a.len() as int),
        secret == value.subrange(5 + a.len() as int, value.len() as int),
{
    assert(value.subrange(4, 4 + a.len() as int) =~= a);
    assert(value.subrange(5 + a.len() as int, value.len() as int) =~= secret);
    assert forall|j: int| 4 <= j < 4 + a.len() implies #[trigger] value[j] != '.' by {
        assert(value[j] == a[j - 4]);
    }
    assert forall|j: int| 5 + a.len() <= j < value.len() implies #[trigger] value[j] != '.' by {
        assert(value[j] == secret[j - 5 - a.len()]);
    }
}

/// Checks that `s` is 64 lowercase hexadecimal digits.
fn secret_text_valid(s: &str) -> (b: bool)
    ensures
        b == secret_segment_valid(s@),
{
    let n = s.unicode_len();
    if n != 2 * SECRET_BYTES {
        return false;
    }
    let mut i: usize = 0;
    while i < n
        invariant
            n == s@.len(),
            i <= n,
            forall|j: int| 0 <= j < i ==> is_lower_hex_char(#[trigger] s@[j]),
        decreases n - i,
    {
        if !lower_hex_char(s.get_char(i)) {
            return false;
        }
        i = i + 1;
    }
    true
}

/// Splits and checks a bearer value of the form `hm1.<actor id>.<secret>`.
///
/// Every malformed value gives the same generic error.
pub fn parse_token(value: &str) -> (r: Result<ParsedToken, ActorAuthenticationError>)
    ensures
        match r {
            Ok(p) => token_accepted(value@, p.actor_id, p.secret@),
            Err(_) => forall|id: u64, secret: Seq<char>| !#[trigger] token_accepted(value@, id, secret),
        },
{
    let n = value.unicode_len();
    let d1 = match find_dot(value, 0) {
        Some(i) => i,
        None => {
            proof {
                assert forall|id: u64, secret: Seq<char>| !#[trigger] token_accepted(value@, id, secret) by {
                    if token_accepted(value@, id, secret) {
                        let a = choose|a: Seq<char>|
                            #[trigger] token_splits_as(value@, a, secret) && actor_segment_valid(a)
                                && digits_value(a) == id;
                        lemma_split_positions(value@, a, secret);
                    }
                }
            }
            return Err(ActorAuthenticationError);
        },
    };
    let second = if d1 + 1 <= n { find_dot(value, d1 + 1) } else { None };
    let d2 = match second {
        Some(i) => i,
        None => {
            proof {
                assert forall|id: u64, secret: Seq<char>| !#[trigger] token_accepted(value@, id, secret) by {
                    if token_accepted(value@, id, secret) {
                        let a = choose|a: Seq<char>|
                            #[trigger] token_splits_as(value@, a, secret) && actor_segment_valid(a)
                                && digits_value(a) == id;
                        lemma_split_positions(value@, a, secret);
                        assert(value@[4 + a.len() as int] == '.');
                    }
                }
            }
            return Err(ActorAuthenticationError);
        },
    };
    let third = find_dot(value, d2 + 1);
    let prefix_ok = d1 == 3 && value.get_char(0) == 'h' && value.get_char(1) == 'm' && value.get_char(2) == '1';
    if third.is_some() || !prefix_ok {
        proof {
            assert forall|id: u64, secret: Seq<char>| !#[trigger] token_accepted(value@, id, secret) by {
                if token_accepted(value@, id, secret) {
                    let a = choose|a: Seq<char>|
                        #[trigger] token_splits_as(value@, a, secret) && actor_segment_valid(a) && digits_value(a)
                            == id;
                    lemma_split_positions(value@, a, secret);
                    assert(d1 == 3);
                    assert(d2 == 4 + a.len());
                }
            }
        }
        return Err(ActorAuthenticationError);
    }
    let actor = value.substring_char(d1 + 1, d2);
    let secret = value.substring_char(d2 + 1, n);
    let secret_ok = secret_text_valid(secret);
    let parsed_id = parse_actor_id(actor);
    if !secret_ok || parsed_id.is_none() {
        proof {
            assert forall|id: u64, s2: Seq<char>| !#[trigger] token_accepted(value@, id, s2) by {
                if token_accepted(value@, id, s2) {
                    let a = choose|a: Seq<char>|
                        #[trigger] token_splits_as(value@, a, s2) && actor_segment_valid(a) && digits_value(a)
                            == id;
                    lemma_split_positions(value@, a, s2);
                    assert(d2 == 4 + a.len());
                    assert(a =~= actor@);
                    assert(s2 =~= secret@);
                }
            }
        }
        return Err(ActorAuthenticationError);
    }
    let actor_id = match parsed_id {
        Some(id) => id,
        None => return Err(ActorAuthenticationError),
    };
    let owned = secret.to_owned();
    proof {
        assert(value@ =~= token_prefix() + seq!['.'] + actor@ + seq!['.'] + secret@);
        assert(token_splits_as(value@, actor@, secret@));
    }
    Ok(ParsedToken { actor_id, secret: owned })
}

/// A token's fields are determined by its text.
pub proof fn lemma_token_fields_unique(value: Seq<char>, id1: u64, s1: Seq<char>, id2: u64, s2: Seq<char>)
    requires
        token_accepted(value, id1, s1),
        token_accepted(value, id2, s2),
    ensures
        id1 == id2,
        s1 == s2,
{
    let a1 = choose|a: Seq<char>|
        #[trigger] token_splits_as(value, a, s1) && actor_segment_valid(a) && digits_value(a) == id1;
    let a2 = choose|a: Seq<char>|
        #[trigger] token_splits_as(value, a, s2) && actor_segment_valid(a) && digits_value(a) == id2;
    lemma_split_positions(value, a1, s1);
    lemma_split_positions(value, a2, s2);
    if a1.len() < a2.len() {
        assert(value[4 + a1.len() as int] == '.');
    } else if a2.len() < a1.len() {
        assert(value[4 + a2.len() as int] == '.');
    }
    assert(a1.len() == a2.len());
}

/// The token issued for an actor and 32 secret bytes is well formed and names
/// exactly that actor and the hexadecimal secret.
pub proof fn lemma_issued_token_accepted(actor_id: u64, secret: Seq<u8>)
    requires
        secret.len() == SECRET_BYTES,
    ensures
        token_accepted(token_text(actor_id, hex_text(secret)), actor_id, hex_text(secret)),
        forall|id: u64, s: Seq<char>|
            #[trigger] token_accepted(token_text(actor_id, hex_text(secret)), id, s) ==> id == actor_id && s
                == hex_text(secret),
{
    let a = decimal_chars(actor_id as nat);
    let h = hex_text(secret);
    lemma_decimal_chars_value(actor_id as nat);
    lemma_hex_text_shape(secret);
    assert forall|i: int| 0 <= i < h.len() implies #[trigger] h[i] != '.' by {
        assert(is_lower_hex_char(h[i]));
    }
    assert(token_splits_as(token_text(actor_id, h), a, h));
    assert(token_accepted(token_text(actor_id, h), actor_id, h));
    assert forall|id: u64, s: Seq<char>| #[trigger] token_accepted(token_text(actor_id, h), id, s) implies id
        == actor_id && s == h by {
        lemma_token_fields_unique(token_text(actor_id, h), id, s, actor_id, h);
    }
}

/// Stored credential of one actor: an argon2id PHC string of its token secret.
#[derive(Clone, Debug)]
pub struct ActorCredential {
    pub actor_id: u64,
    pub token_hash: String,
    /// Last rotation time in milliseconds since the Unix epoch.
    pub rotated_at: i64,
}

/// Durable actor record with its optional credential and explicit grants.
#[derive(Clone, Debug)]
pub struct ActorSecurity {
    pub actor: Actor,
    pub credential: Option<ActorCredential>,
    pub grants: Vec<ActorGrant>,
}

/// The PHC string that argon2id (version 0x13, default parameters) computes for
/// `secret` with the raw `salt` bytes.
pub uninterp spec fn argon2id_phc(secret: Seq<char>, salt: Seq<u8>) -> Seq<char>;

/// Whether `encoded` is a PHC string under which argon2id verifies `secret`.
pub uninterp spec fn argon2id_accepts(secret: Seq<char>, encoded: Seq<char>) -> bool;

/// Hashes `secret` with `Argon2::hash_password_with_salt` (argon2id, version 0x13,
/// default parameters) and renders the PHC string.
///
/// A returned string is the deterministic hash of the arguments, and argon2's
/// verifier accepts the same secret under it. `None` covers every refusal,
/// including a salt outside argon2's length bounds and a failed allocation.
#[verifier::external_body]
fn argon2id_hash(secret: &str, salt: &[u8]) -> (r: Option<String>)
    ensures
        r matches Some(h) ==> h@ == argon2id_phc(secret@, salt@) && argon2id_accepts(secret@, h@),
{
    let hasher = argon2::Argon2::new(argon2::Algorithm::Argon2id, argon2::Version::V0x13, argon2::Params::default());
    hasher.hash_password_with_salt(secret.as_bytes(), salt).ok().map(|hash| hash.to_string())
}

/// Verifies `secret` against the PHC string `encoded` with argon2's
/// `PasswordVerifier` (the string is parsed, then the hash recomputed).
///
/// `true` only when verification succeeds; a failed allocation inside argon2
/// also yields `false`, so the converse is not stated.
#[verifier::external_body]
fn verify(secret: &str, encoded: &str) -> (r: bool)
    ensures
        r ==> argon2id_accepts(secret@, encoded@),
{
    let verifier = argon2::Argon2::new(argon2::Algorithm::Argon2id, argon2::Version::V0x13, argon2::Params::default());
    verifier.verify_password(secret.as_bytes(), encoded).is_ok()
}

/// Random bytes from the thread-local generator seeded by the operating system
/// (`rand::fill`); nothing is known of their values. `rand` panics when the
/// operating system cannot seed its generator.
#[verifier::external_body]
fn random_bytes(len: usize) -> (r: Vec<u8>)
    ensures
        r@.len() == len,
{
    let mut bytes = vec![0u8; len];
    rand::fill(bytes.as_mut_slice());
    bytes
}

/// Hashes a token secret for storage.
fn hash(secret: &str, salt: &[u8]) -> (r: Result<String, ActorManagementError>)
    ensures
        match r {
            Ok(h) => h@ == argon2id_phc(secret@, salt@) && argon2id_accepts(secret@, h@),
            Err(e) => e == ActorManagementError::Hashing,
        },
{
    match argon2id_hash(secret, salt) {
        Some(h) => Ok(h),
        None => Err(ActorManagementError::Hashing),
    }
}

/// Builds the token and the stored credential from the given secret and salt bytes.
pub fn credential_from_entropy(actor_id: u64, secret: &[u8], salt: &[u8], rotated_at: i64) -> (r: Result<
    (ActorToken, ActorCredential),
    ActorManagementError,
>)
    ensures
        match r {
            Ok((token, credential)) => {
                &&& token@ == token_text(actor_id, hex_text(secret@))
                &&& credential.actor_id == actor_id
                &&& credential.token_hash@ == argon2id_phc(hex_text(secret@), salt@)
                &&& argon2id_accepts(hex_text(secret@), credential.token_hash@)
                &&& credential.rotated_at == rotated_at
            },
            Err(e) => e == ActorManagementError::Hashing,
        },
{
    let secret_text = hex(secret);
    let mut text = String::from_str("hm1.");
    push_decimal(&mut text, actor_id);
    text.push('.');
    text.append(secret_text.as_str());
    proof {
        reveal_strlit("hm1.");
        assert(text@ =~= token_text(actor_id, hex_text(secret@)));
    }
    let token_hash = hash(secret_text.as_str(), salt)?;
    Ok((ActorToken(text), ActorCredential { actor_id, token_hash, rotated_at }))
}

/// Issues a fresh random token for `actor` and the credential that stores it.
///
/// The secret is 32 random bytes and the salt 16; the token names the actor
/// and the credential verifies the token's secret.
pub fn issue_credential(actor: &Actor, now: i64) -> (r: Result<(ActorToken, ActorCredential), ActorManagementError>)
    ensures
        match r {
            Ok((token, credential)) => exists|secret: Seq<u8>|
                #![trigger hex_text(secret)]
                {
                    &&& secret.len() == SECRET_BYTES
                    &&& token@ == token_text(actor.id, hex_text(secret))
                    &&& argon2id_accepts(hex_text(secret), credential.token_hash@)
                    &&& credential.actor_id == actor.id
                    &&& credential.rotated_at == now
                },
            Err(e) => e == ActorManagementError::Hashing,
        },
{
    let secret = random_bytes(SECRET_BYTES);
    let salt = random_bytes(SALT_BYTES);
    let issued = credential_from_entropy(actor.id, secret.as_slice(), salt.as_slice(), now);
    proof {
        if issued is Ok {
            assert(hex_text(secret@) == hex_text(secret@));
        }
    }
    issued
}

/// The authentication outcome for a stored actor record, given whether the
/// presented secret verified against its credential.
pub open spec fn authentication_result(security: Option<ActorSecurity>, verified: bool) -> Result<
    Actor,
    ActorAuthenticationError,
> {
    match security {
        Some(s) => if s.actor.enabled && s.credential is Some && verified {
            Ok(s.actor)
        } else {
            Err(ActorAuthenticationError)
        },
        None => Err(ActorAuthenticationError),
    }
}

/// Accepts the stored actor only when it exists, is enabled, has a credential and
/// the presented secret verified.
pub fn authentication_outcome(security: Option<ActorSecurity>, verified: bool) -> (r: Result<
    Actor,
    ActorAuthenticationError,
>)
    ensures
        r == authentication_result(security, verified),
{
    match security {
        Some(s) => if s.actor.enabled && s.credential.is_some() && verified {
            Ok(s.actor)
        } else {
            Err(ActorAuthenticationError)
        },
        None => Err(ActorAuthenticationError),
    }
}

/// Authenticates a parsed token against the actor record stored under its id.
///
/// Missing, disabled or credential-less actors fail before any hashing; the
/// secret is verified with argon2 only otherwise.
pub fn authenticate_record(parsed: &ParsedToken, security: Option<ActorSecurity>) -> (r: Result<
    Actor,
    ActorAuthenticationError,
>)
    ensures
        r == authentication_result(security, true) || r == authentication_result(security, false),
        r is Ok ==> (security matches Some(s) && s.credential matches Some(c) && argon2id_accepts(
            parsed.secret@,
            c.token_hash@,
        )),
{
    let verified = match &security {
        Some(s) => if s.actor.enabled {
            match &s.credential {
                Some(c) => verify(parsed.secret.as_str(), c.token_hash.as_str()),
                None => false,
            }
        } else {
            false
        },
        None => false,
    };
    authentication_outcome(security, verified)
}

/// A newly bootstrapped actor: enabled, with the given identity and creation time.
pub fn bootstrap_actor(id: u64, installation_id: u64, name: String, created_at: i64) -> (a: Actor)
    ensures
        a.id == id,
        a.installation_id == installation_id,
        a.name@ == name@,
        a.enabled,
        a.created_at == created_at,
{
    Actor { id, installation_id, name, enabled: true, created_at }
}

/// The actor whose credential is rotated, or `NotFound`.
pub fn rotation_actor(security: Option<ActorSecurity>) -> (r: Result<Actor, ActorManagementError>)
    ensures
        match security {
            Some(s) => r == Ok::<Actor, ActorManagementError>(s.actor),
            None => r == Err::<Actor, ActorManagementError>(ActorManagementError::NotFound),
        },
{
    match security {
        Some(s) => Ok(s.actor),
        None => Err(ActorManagementError::NotFound),
    }
}

/// The stored actor with `enabled` cleared and nothing else changed, or `NotFound`.
pub fn disable_actor(security: Option<ActorSecurity>) -> (r: Result<Actor, ActorManagementError>)
    ensures
        match security {
            Some(s) => r == Ok::<Actor, ActorManagementError>(Actor { enabled: false, ..s.actor }),
            None => r == Err::<Actor, ActorManagementError>(ActorManagementError::NotFound),
        },
{
    match security {
        Some(s) => {
            let mut actor = s.actor;
            actor.enabled = false;
            Ok(actor)
        },
        None => Err(ActorManagementError::NotFound),
    }
}

} // verus!
