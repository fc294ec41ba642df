//! Application-owned value types shared by the port boundaries.

use vstd::prelude::*;

verus! {

/// Whether `c` is one of the sixteen lowercase hexadecimal digits.
pub open spec fn is_lower_hex_char(c: char) -> bool {
    ('0' <= c && c <= '9') || ('a' <= c && c <= 'f')
}

/// Whether `s` is a canonical SHA-256 encoding: 64 lowercase hexadecimal digits.
pub open spec fn is_canonical_sha256_hex(s: Seq<char>) -> bool {
    &&& s.len() == 64
    &&& forall|i: int| 0 <= i < s.len() ==> is_lower_hex_char(#[trigger] s[i])
}

/// Executable lowercase-hex digit test.
pub fn lower_hex_char(c: char) -> (b: bool)
    ensures
        b == is_lower_hex_char(c),
{
    ('0' <= c && c <= '9') || ('a' <= c && c <= 'f')
}

/// Character-wise string equality.
pub fn str_eq(a: &str, b: &str) -> (r: bool)
    ensures
        r == (a@ == b@),
{
    let n = a.unicode_len();
    if n != b.unicode_len() {
        return false;
    }
    let mut i: usize = 0;
    while i < n
        invariant
            n == a@.len(),
            n == b@.len(),
            i <= n,
            forall|j: int| 0 <= j < i ==> a@[j] == b@[j],
        decreases n - i,
    {
        if a.get_char(i) != b.get_char(i) {
            return false;
        }
        i = i + 1;
    }
    assert(a@ =~= b@);
    true
}

/// Canonical SHA-256 request digest used to compare idempotent retries.
#[derive(Clone, Debug, PartialEq, Eq, Hash)]
pub struct CanonicalRequestHash(String);

/// Invalid canonical request digest.
#[derive(Clone, Copy, Debug, PartialEq, Eq, Hash)]
pub struct CanonicalRequestHashError;

impl View for CanonicalRequestHash {
    type V = Seq<char>;

    closed spec fn view(&self) -> Seq<char> {
        self.0@
    }
}

impl CanonicalRequestHash {
    /// Creates a digest from 64 lowercase hexadecimal characters.
    pub fn new(value: String) -> (r: Result<Self, CanonicalRequestHashError>)
        ensures
            r is Ok <==> is_canonical_sha256_hex(value@),
            r matches Err(e) ==> e == CanonicalRequestHashError,
            r matches Ok(h) ==> h@ == value@,
    {
        let len = value.as_str().unicode_len();
        if len != 64 {
            return Err(CanonicalRequestHashError);
        }
        let mut i: usize = 0;
        while i < len
            invariant
                len == value@.len(),
                i <= len,
                forall|j: int| 0 <= j < i ==> is_lower_hex_char(#[trigger] value@[j]),
            decreases len - i,
        {
            let c = value.as_str().get_char(i);
            if !lower_hex_char(c) {
                return Err(CanonicalRequestHashError);
            }
            i = i + 1;
        }
        Ok(CanonicalRequestHash(value))
    }

    /// Wraps text already known to be a canonical digest.
    pub(crate) fn from_canonical(value: String) -> (h: Self)
        requires
            is_canonical_sha256_hex(value@),
        ensures
            h@ == value@,
    {
        CanonicalRequestHash(value)
    }

    /// Returns the canonical lowercase hexadecimal digest.
    pub fn as_str(&self) -> (s: &str)
        ensures
            s@ == self@,
    {
        self.0.as_str()
    }
}

/// Secret bytes that cannot be serialized and are never printed.
#[derive(Clone)]
pub struct SecretValue(Vec<u8>);

impl View for SecretValue {
    type V = Seq<u8>;

    closed spec fn view(&self) -> Seq<u8> {
        self.0@
    }
}

impl SecretValue {
    /// Wraps secret bytes for immediate protocol use.
    pub fn new(value: Vec<u8>) -> (s: Self)
        ensures
            s@ == value@,
    {
        SecretValue(value)
    }

    /// Exposes the bytes only at the integration boundary that needs them.
    pub fn expose(&self) -> (b: &[u8])
        ensures
            b@ == self@,
    {
        self.0.as_slice()
    }

    /// Redacted debug rendering; the secret bytes never appear in it.
    pub fn debug_string(&self) -> (s: String)
        ensures
            s@ == "SecretValue([REDACTED])"@,
    {
        String::from_str("SecretValue([REDACTED])")
    }
}

/// Secret-safe persistence health returned through the application boundary.
#[derive(Clone, Debug, PartialEq, Eq)]
pub struct RepositoryHealth {
    /// Stable backend name such as `sqlite` or `memory`.
    pub backend: String,
    pub schema_version: Option<u32>,
    /// Backend integrity result.
    pub integrity: String,
    pub wal_enabled: Option<bool>,
    pub earliest_event_cursor: Option<u64>,
    pub latest_event_cursor: Option<u64>,
}

/// Rows removed by one command retention pass.
#[derive(Clone, Copy, Debug, Default, PartialEq, Eq, Structural)]
pub struct CommandRetentionResult {
    pub commands_removed: usize,
    pub audit_records_removed: usize,
}

/// Stable, secret-safe failure returned by a secret backend.
#[derive(Clone, Copy, Debug, PartialEq, Eq)]
pub struct SecretStoreError {
    pub backend: &'static str,
    pub operation: &'static str,
    pub code: &'static str,
}

impl SecretStoreError {
    /// The error's display text: backend, operation and code, and nothing secret.
    pub fn message(&self) -> (s: String)
        ensures
            s@ == "secret backend `"@ + self.backend@ + "` failed during `"@ + self.operation@ + "` ("@
                + self.code@ + ")"@,
    {
        let mut s = String::from_str("secret backend `");
        s.append(self.backend);
        s.append("` failed during `");
        s.append(self.operation);
        s.append("` (");
        s.append(self.code);
        s.append(")");
        s
    }
}

/// Source of the current instant, in milliseconds since the Unix epoch.
pub trait Clock {
    fn now(&self) -> i64;
}

/// Wall-clock implementation used by the runtime.
#[derive(Clone, Copy, Debug, Default)]
pub struct SystemClock;

/// The current UTC instant from `chrono::Utc::now`, in milliseconds since the
/// Unix epoch; nothing is known of its value.
#[verifier::external_body]
fn utc_now_millis() -> i64 {
    chrono::Utc::now().timestamp_millis()
}

impl Clock for SystemClock {
    fn now(&self) -> i64 {
        utc_now_millis()
    }
}

} // verus!
