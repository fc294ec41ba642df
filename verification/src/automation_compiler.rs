//! Side-effect-free automation validation rules.

use chrono::Timelike;
use vstd::prelude::*;

use crate::ports::str_eq;

verus! {

/// Stable finding code of one validation failure.
#[derive(Clone, Copy, Debug, PartialEq, Eq, Structural)]
pub enum AutomationValidationCode {
    RequiredValueMissing,
    DocumentTooLarge,
    ResourceBoundExceeded,
    TypeMismatch,
    CapabilityIncompatible,
    InvalidSchedule,
    InvalidDecimal,
    ReferenceMissing,
    ReferenceAmbiguous,
    ReferenceStale,
    ImpossibleBranch,
    SafetyConstraintUnavailable,
}

/// One path-addressed validation finding.
#[derive(Clone, Debug)]
pub struct AutomationValidationError {
    pub code: AutomationValidationCode,
    /// JSON pointer of the offending value.
    pub path: String,
    pub reason: String,
    pub remediation: Option<String>,
    pub reference: Option<String>,
}

/// All findings produced by one side-effect-free compilation attempt.
#[derive(Clone, Debug)]
pub struct AutomationCompilationError {
    /// Stable, path-addressed findings in discovery order.
    pub findings: Vec<AutomationValidationError>,
}

impl AutomationCompilationError {
    /// Human-readable summary naming the number of findings.
    pub fn finding_count(&self) -> (n: usize)
        ensures
            n == self.findings@.len(),
    {
        self.findings.len()
    }
}

/// Stateless compiler for immutable authored automation documents.
#[derive(Clone, Copy, Debug)]
pub struct AutomationCompiler;

/// Whether `c` is an ASCII decimal digit.
pub open spec fn is_digit(c: char) -> bool {
    '0' <= c && c <= '9'
}

/// Whether every character is an ASCII decimal digit.
pub open spec fn all_digits(s: Seq<char>) -> bool {
    forall|i: int| 0 <= i < s.len() ==> is_digit(#[trigger] s[i])
}

/// A non-empty digit run without a superfluous leading zero.
pub open spec fn canonical_integer_digits(s: Seq<char>) -> bool {
    &&& s.len() > 0
    &&& all_digits(s)
    &&& !(s.len() > 1 && s[0] == '0')
}

/// The text after one optional leading minus sign.
pub open spec fn unsigned_part(v: Seq<char>) -> Seq<char> {
    if v.len() > 0 && v[0] == '-' {
        v.drop_first()
    } else {
        v
    }
}

/// Whether `k` is the position of the first `.` in `u`.
pub open spec fn first_dot_at(u: Seq<char>, k: int) -> bool {
    &&& 0 <= k < u.len()
    &&& u[k] == '.'
    &&& forall|j: int| 0 <= j < k ==> u[j] != '.'
}

/// Canonical plain base-10 decimal text: optional minus, an integer part without
/// leading zeros, and an optional non-empty fraction without trailing zeros;
/// negative zero is not canonical.
pub open spec fn canonical_decimal_text(v: Seq<char>) -> bool {
    let u = unsigned_part(v);
    if exists|k: int| first_dot_at(u, k) {
        let k = choose|k: int| first_dot_at(u, k);
        let fraction = u.skip(k + 1);
        &&& canonical_integer_digits(u.take(k))
        &&& fraction.len() > 0
        &&& all_digits(fraction)
        &&& fraction.last() != '0'
    } else {
        canonical_integer_digits(u) && v != seq!['-', '0']
    }
}

fn digit(c: char) -> (b: bool)
    ensures
        b == is_digit(c),
{
    '0' <= c && c <= '9'
}

/// A non-empty digit fraction without a trailing zero.
pub open spec fn canonical_fraction_digits(f: Seq<char>) -> bool {
    f.len() > 0 && all_digits(f) && f.last() != '0'
}

proof fn lemma_decimal_split(v: Seq<char>, start: int, k: int)
    requires
        start == (if v.len() > 0 && v[0] == '-' { 1int } else { 0int }),
        start <= k <= v.len(),
        forall|j: int| start <= j < k ==> v[j] != '.',
        k < v.len() ==> v[k] == '.',
    ensures
        canonical_decimal_text(v) == (canonical_integer_digits(v.subrange(start, k)) && if k < v.len() {
            canonical_fraction_digits(v.skip(k + 1))
        } else {
            v != seq!['-', '0']
        }),
{
    let u = unsigned_part(v);
    assert(u =~= v.skip(start));
    if k < v.len() {
        assert(first_dot_at(u, k - start));
        let kk = choose|kk: int| first_dot_at(u, kk);
        assert(kk == k - start) by {
            if kk < k - start {
                assert(u[kk] == v[kk + start]);
            }
            if kk > k - start {
                assert(u[k - start] == '.');
            }
        }
        assert(u.take(kk) =~= v.subrange(start, k));
        assert(u.skip(kk + 1) =~= v.skip(k + 1));
    } else {
        assert forall|kk: int| !first_dot_at(u, kk) by {
            if 0 <= kk < u.len() {
                assert(u[kk] == v[kk + start]);
            }
        }
        assert(u =~= v.subrange(start, k));
    }
}

/// Whether `value` is canonical plain base-10 decimal text.
pub fn canonical_decimal(value: &str) -> (b: bool)
    ensures
        b == canonical_decimal_text(value@),
{
    let n = value.unicode_len();
    let ghost v = value@;
    let start: usize = if n > 0 && value.get_char(0) == '-' {
        1
    } else {
        0
    };
    let mut k: usize = start;
    while k < n && value.get_char(k) != '.'
        invariant
            start <= k <= n,
            n == v.len(),
            v == value@,
            forall|j: int| start <= j < k ==> v[j] != '.',
        decreases n - k,
    {
        k = k + 1;
    }
    proof {
        lemma_decimal_split(v, start as int, k as int);
    }
    let ghost int_part = v.subrange(start as int, k as int);
    if k == start {
        return false;
    }
    let mut i: usize = start;
    while i < k
        invariant
            start <= i <= k <= n,
            n == v.len(),
            v == value@,
            int_part == v.subrange(start as int, k as int),
            forall|j: int| start <= j < i ==> is_digit(v[j]),
            canonical_decimal_text(v) ==> canonical_integer_digits(int_part),
        decreases k - i,
    {
        if !digit(value.get_char(i)) {
            assert(int_part[i - start] == v[i as int]);
            return false;
        }
        i = i + 1;
    }
    assert(all_digits(int_part)) by {
        assert forall|j: int| 0 <= j < int_part.len() implies is_digit(#[trigger] int_part[j]) by {
            assert(int_part[j] == v[j + start]);
        }
    }
    if k - start > 1 && value.get_char(start) == '0' {
        return false;
    }
    if k == n {
        let negative_zero = start == 1 && n == 2 && value.get_char(1) == '0';
        proof {
            if negative_zero {
                assert(v =~= seq!['-', '0']);
            }
            if v == seq!['-', '0'] {
                assert(v[0] == '-');
                assert(v[1] == '0');
            }
        }
        return !negative_zero;
    }
    let frac_start = k + 1;
    let ghost fraction = v.skip(frac_start as int);
    assert(canonical_decimal_text(v) == canonical_fraction_digits(fraction));
    if frac_start >= n {
        return false;
    }
    let mut j: usize = frac_start;
    while j < n
        invariant
            frac_start <= j <= n,
            n == v.len(),
            v == value@,
            fraction == v.skip(frac_start as int),
            forall|m: int| frac_start <= m < j ==> is_digit(v[m]),
            canonical_decimal_text(v) == canonical_fraction_digits(fraction),
        decreases n - j,
    {
        if !digit(value.get_char(j)) {
            assert(fraction[j - frac_start] == v[j as int]);
            return false;
        }
        j = j + 1;
    }
    assert(all_digits(fraction)) by {
        assert forall|m: int| 0 <= m < fraction.len() implies is_digit(#[trigger] fraction[m]) by {
            assert(fraction[m] == v[m + frac_start]);
        }
    }
    value.get_char(n - 1) != '0'
}

/// JSON-pointer escaping of one character.
pub open spec fn escape_char(c: char) -> Seq<char> {
    if c == '~' {
        seq!['~', '0']
    } else if c == '/' {
        seq!['~', '1']
    } else {
        seq![c]
    }
}

/// JSON-pointer escaping (RFC 6901) of one reference token.
pub open spec fn pointer_escaped(s: Seq<char>) -> Seq<char>
    decreases s.len(),
{
    if s.len() == 0 {
        Seq::empty()
    } else {
        pointer_escaped(s.drop_last()) + escape_char(s.last())
    }
}

/// `String::push_str`-style append of one `str` through vstd's `append`.
fn push_char(s: &mut String, c: char)
    ensures
        final(s)@ == old(s)@.push(c),
{
    s.push(c);
}

/// Escapes one JSON-pointer segment: `~` becomes `~0` and `/` becomes `~1`.
pub fn pointer_segment(value: &str) -> (s: String)
    ensures
        s@ == pointer_escaped(value@),
{
    let n = value.unicode_len();
    let mut out = String::new();
    let mut i: usize = 0;
    while i < n
        invariant
            n == value@.len(),
            i <= n,
            out@ == pointer_escaped(value@.take(i as int)),
        decreases n - i,
    {
        let c = value.get_char(i);
        let ghost before = out@;
        if c == '~' {
            push_char(&mut out, '~');
            push_char(&mut out, '0');
        } else if c == '/' {
            push_char(&mut out, '~');
            push_char(&mut out, '1');
        } else {
            push_char(&mut out, c);
        }
        assert(value@.take(i + 1).drop_last() =~= value@.take(i as int));
        assert(out@ =~= before + escape_char(c));
        i = i + 1;
    }
    assert(value@.take(n as int) =~= value@);
    out
}

/// An escaped segment never contains `/`, so it always stays one pointer segment.
pub proof fn lemma_pointer_segment_has_no_slash(s: Seq<char>)
    ensures
        !pointer_escaped(s).contains('/'),
        pointer_escaped(s).len() >= s.len(),
    decreases s.len(),
{
    if s.len() > 0 {
        lemma_pointer_segment_has_no_slash(s.drop_last());
        let e = escape_char(s.last());
        let p = pointer_escaped(s.drop_last());
        assert forall|i: int| 0 <= i < (p + e).len() implies (p + e)[i] != '/' by {
            if i < p.len() {
                assert((p + e)[i] == p[i]);
            }
        }
    }
}

/// Declared resource budget field that failed validation.
#[derive(Clone, Copy, Debug, PartialEq, Eq, Structural)]
pub enum AutomationResourceBudgetError {
    MaximumNodes,
    MaximumNestingDepth,
    MaximumParallelWidth,
    MaximumQueueLength,
    MaximumTraceSteps,
    MaximumRunDuration,
}

/// JSON field name of the failing budget bound.
pub fn budget_field(error: AutomationResourceBudgetError) -> (s: &'static str)
    ensures
        s@ == match error {
            AutomationResourceBudgetError::MaximumNodes => "maximum_nodes"@,
            AutomationResourceBudgetError::MaximumNestingDepth => "maximum_nesting_depth"@,
            AutomationResourceBudgetError::MaximumParallelWidth => "maximum_parallel_width"@,
            AutomationResourceBudgetError::MaximumQueueLength => "maximum_queue_length"@,
            AutomationResourceBudgetError::MaximumTraceSteps => "maximum_trace_steps"@,
            AutomationResourceBudgetError::MaximumRunDuration => "maximum_run_duration_ms"@,
        },
{
    match error {
        AutomationResourceBudgetError::MaximumNodes => "maximum_nodes",
        AutomationResourceBudgetError::MaximumNestingDepth => "maximum_nesting_depth",
        AutomationResourceBudgetError::MaximumParallelWidth => "maximum_parallel_width",
        AutomationResourceBudgetError::MaximumQueueLength => "maximum_queue_length",
        AutomationResourceBudgetError::MaximumTraceSteps => "maximum_trace_steps",
        AutomationResourceBudgetError::MaximumRunDuration => "maximum_run_duration_ms",
    }
}

/// Scalar type of an automation value.
#[derive(Clone, Copy, Debug, PartialEq, Eq, Structural)]
pub enum AutomationValueType {
    Null,
    Boolean,
    Integer,
    Decimal,
    String,
    Timestamp,
    DurationMillis,
}

/// Value type of an observation field declared by a capability schema.
pub open spec fn observation_field_type_spec(capability: Seq<char>, field: Seq<char>) -> Option<AutomationValueType> {
    if (capability == "on_off.v1"@ && field == "on"@) || (capability == "availability.v1"@ && field == "online"@) {
        Some(AutomationValueType::Boolean)
    } else if ((capability == "level.v1"@ || capability == "position.v1"@) && field == "percent"@)
        || (capability == "power.v1"@ && (field == "watts"@ || field == "volts"@ || field == "amperes"@))
        || (capability == "energy.v1"@ && field == "watt_hours"@) {
        Some(AutomationValueType::Decimal)
    } else if (capability == "position.v1"@ && field == "motion"@) || (capability == "diagnostics.v1"@ && field
        == "firmware_version"@) {
        Some(AutomationValueType::String)
    } else {
        None
    }
}

/// Value type of an observation field, or `None` when the capability schema
/// does not define the field.
pub fn observation_field_type(capability: &str, field: &str) -> (t: Option<AutomationValueType>)
    ensures
        t == observation_field_type_spec(capability@, field@),
{
    if (str_eq(capability, "on_off.v1") && str_eq(field, "on")) || (str_eq(capability, "availability.v1")
        && str_eq(field, "online")) {
        Some(AutomationValueType::Boolean)
    } else if ((str_eq(capability, "level.v1") || str_eq(capability, "position.v1")) && str_eq(field, "percent"))
        || (str_eq(capability, "power.v1") && (str_eq(field, "watts") || str_eq(field, "volts") || str_eq(
        field,
        "amperes",
    ))) || (str_eq(capability, "energy.v1") && str_eq(field, "watt_hours")) {
        Some(AutomationValueType::Decimal)
    } else if (str_eq(capability, "position.v1") && str_eq(field, "motion")) || (str_eq(capability, "diagnostics.v1")
        && str_eq(field, "firmware_version")) {
        Some(AutomationValueType::String)
    } else {
        None
    }
}

/// Whether a timer duration is inside the supported range `1..=maximum`.
pub fn timer_in_range(duration_ms: u64, maximum_ms: u64) -> (b: bool)
    ensures
        b == (duration_ms != 0 && duration_ms <= maximum_ms),
{
    duration_ms != 0 && duration_ms <= maximum_ms
}

/// Whether `text` names an IANA time zone known to `chrono_tz`.
pub uninterp spec fn known_timezone(text: Seq<char>) -> bool;

/// Parses `text` with `chrono_tz::Tz::from_str`.
#[verifier::external_body]
pub(crate) fn timezone_is_known(text: &str) -> (b: bool)
    ensures
        b == known_timezone(text@),
{
    text.parse::<chrono_tz::Tz>().is_ok()
}

/// Whether `cron::Schedule::from_str` accepts `text` (six fields with seconds,
/// or seven with a year).
pub uninterp spec fn cron_parses(text: Seq<char>) -> bool;

/// Parses `text` with `cron::Schedule::from_str`.
#[verifier::external_body]
pub(crate) fn cron_expression_parses(text: &str) -> (b: bool)
    ensures
        b == cron_parses(text@),
{
    text.parse::<cron::Schedule>().is_ok()
}

/// The time of day `chrono::NaiveTime::parse_from_str(text, "%H:%M:%S")` reads
/// from `text`, as seconds from midnight and nanoseconds, or `None` when it
/// rejects the text.
pub uninterp spec fn local_time_value(text: Seq<char>) -> Option<(u32, u32)>;

/// Whether `text` parses as `%H:%M:%S` for `chrono::NaiveTime`.
pub open spec fn local_time_parses(text: Seq<char>) -> bool {
    local_time_value(text) is Some
}

/// Parses `text` with `chrono::NaiveTime::parse_from_str(text, "%H:%M:%S")`
/// and reads its seconds from midnight and nanoseconds.
#[verifier::external_body]
pub(crate) fn local_time_of_day(text: &str) -> (r: Option<(u32, u32)>)
    ensures
        r == local_time_value(text@),
{
    chrono::NaiveTime::parse_from_str(text, "%H:%M:%S").ok().map(|t| (t.num_seconds_from_midnight(), t.nanosecond()))
}

fn local_time_is_valid(text: &str) -> (b: bool)
    ensures
        b == local_time_parses(text@),
{
    local_time_of_day(text).is_some()
}

/// Whether `c` has the Unicode `White_Space` property, the characters
/// `str::split_whitespace` splits on: tab through carriage return, space,
/// next line, no-break space, ogham space mark, en quad through hair space,
/// line and paragraph separators, narrow no-break space, medium mathematical
/// space and ideographic space.
pub open spec fn is_unicode_whitespace(c: char) -> bool {
    let u = c as u32;
    ||| 0x09 <= u <= 0x0D
    ||| u == 0x20
    ||| u == 0x85
    ||| u == 0xA0
    ||| u == 0x1680
    ||| 0x2000 <= u <= 0x200A
    ||| u == 0x2028
    ||| u == 0x2029
    ||| u == 0x202F
    ||| u == 0x205F
    ||| u == 0x3000
}

/// Whether `c` is Unicode white space.
pub(crate) fn whitespace(c: char) -> (b: bool)
    ensures
        b == is_unicode_whitespace(c),
{
    let u = c as u32;
    (0x09 <= u && u <= 0x0D) || u == 0x20 || u == 0x85 || u == 0xA0 || u == 0x1680 || (0x2000 <= u && u <= 0x200A)
        || u == 0x2028 || u == 0x2029 || u == 0x202F || u == 0x205F || u == 0x3000
}

/// Number of maximal runs of non-white-space characters.
pub open spec fn field_count(s: Seq<char>) -> nat
    decreases s.len(),
{
    if s.len() == 0 {
        0
    } else {
        let starts_field = !is_unicode_whitespace(s.last()) && (s.len() == 1 || is_unicode_whitespace(s[s.len() - 2]));
        field_count(s.drop_last()) + if starts_field { 1nat } else { 0nat }
    }
}

fn count_fields(text: &str) -> (n: usize)
    ensures
        n == field_count(text@),
{
    let len = text.unicode_len();
    let mut count: usize = 0;
    let mut i: usize = 0;
    let mut previous_space = true;
    while i < len
        invariant
            len == text@.len(),
            i <= len,
            count == field_count(text@.take(i as int)),
            count <= i,
            previous_space == (i == 0 || is_unicode_whitespace(text@[i - 1])),
        decreases len - i,
    {
        let c = text.get_char(i);
        let space = whitespace(c);
        assert(text@.take(i + 1).drop_last() =~= text@.take(i as int));
        if !space && previous_space {
            count = count + 1;
        }
        previous_space = space;
        i = i + 1;
    }
    assert(text@.take(len as int) =~= text@);
    count
}

/// Five-field schedule text accepted by the cron parser (with a leading seconds
/// field of `0`) together with an IANA time zone.
pub open spec fn schedule_text_valid(cron: Seq<char>, timezone: Seq<char>) -> bool {
    &&& field_count(cron) == 5
    &&& cron_parses("0 "@ + cron)
    &&& known_timezone(timezone)
}

/// An authored schedule: a five-field cron expression in an IANA time zone and
/// the window after each occurrence in which it may still start a run.
#[derive(Clone, Debug)]
pub struct AutomationSchedule {
    pub cron: String,
    pub timezone: String,
    pub occurrence_window_ms: u64,
}

/// Validates one five-field cron expression and its IANA time zone.
pub fn schedule_is_valid(cron: &str, timezone: &str) -> (b: bool)
    ensures
        b == schedule_text_valid(cron@, timezone@),
{
    if count_fields(cron) != 5 {
        return false;
    }
    let mut with_seconds = "0 ".to_owned();
    with_seconds.append(cron);
    cron_expression_parses(with_seconds.as_str()) && timezone_is_known(timezone)
}

/// Validates a daily time window: a known time zone and two `%H:%M:%S` times.
pub fn time_window_is_valid(timezone: &str, start: &str, end: &str) -> (b: bool)
    ensures
        b == (known_timezone(timezone@) && local_time_parses(start@) && local_time_parses(end@)),
{
    timezone_is_known(timezone) && local_time_is_valid(start) && local_time_is_valid(end)
}

/// Kind of a typed common-capability command payload.
#[derive(Clone, Copy, Debug, PartialEq, Eq, Structural)]
pub enum CommandPayloadKind {
    /// `on_off` set to an explicit state.
    OnOffSet(bool),
    /// `on_off` toggle of the current state.
    OnOffToggle,
    /// Any `level` command.
    Level,
    /// Absolute `position` target in percent.
    PositionGoTo(u8),
    /// Any other `position` command (open, close, stop).
    PositionMove,
    /// `access_control` lock.
    Lock,
    /// `access_control` unlock.
    Unlock,
}

/// Safety profile derived from a command target and payload.
#[derive(Clone, Copy, Debug, PartialEq, Eq, Structural)]
pub enum AutomationSafetyProfile {
    Comfort,
    ComfortMotion,
    AccessControl,
    FlowControl,
    Security,
}

/// Additional safety requirement of an automation plan.
#[derive(Clone, Copy, Debug, PartialEq, Eq, Structural)]
pub enum AutomationSafetyRequirement {
    FreshState,
    StopSupport,
    Calibration,
    Position,
    ExplicitApproval,
}

/// How an automation plan may be activated.
#[derive(Clone, Copy, Debug, PartialEq, Eq, Structural)]
pub enum AutomationApprovalRequirement {
    ActivationGrant,
    ExplicitUserApproval,
}

/// ASCII lowercase of one character.
pub open spec fn ascii_lower(c: char) -> char {
    if 'A' <= c && c <= 'Z' {
        ((c as u32) + 32) as char
    } else {
        c
    }
}

/// Whether `pattern` occurs in the ASCII-lowercased `text`.
pub open spec fn lower_contains(text: Seq<char>, pattern: Seq<char>) -> bool {
    exists|i: int| 0 <= i && i + pattern.len() <= text.len() && #[trigger] lower_matches_at(text, pattern, i)
}

/// Whether `pattern` matches the ASCII-lowercased `text` at position `i`.
pub open spec fn lower_matches_at(text: Seq<char>, pattern: Seq<char>, i: int) -> bool {
    forall|j: int| 0 <= j < pattern.len() ==> ascii_lower(#[trigger] text[i + j]) == pattern[j]
}

fn lower_char(c: char) -> (r: char)
    ensures
        r == ascii_lower(c),
{
    if 'A' <= c && c <= 'Z' {
        let code = (c as u32) + 32;
        assert(('a' as u32) <= code <= ('z' as u32));
        char_from_ascii(code)
    } else {
        c
    }
}

fn char_from_ascii(code: u32) -> (c: char)
    requires
        ('a' as u32) <= code <= ('z' as u32),
    ensures
        c == code as char,
{
    let table: [char; 26] = [
        'a', 'b', 'c', 'd', 'e', 'f', 'g', 'h', 'i', 'j', 'k', 'l', 'm',
        'n', 'o', 'p', 'q', 'r', 's', 't', 'u', 'v', 'w', 'x', 'y', 'z',
    ];
    let c = table[(code - 97) as usize];
    assert(table@ =~= seq![
        'a', 'b', 'c', 'd', 'e', 'f', 'g', 'h', 'i', 'j', 'k', 'l', 'm',
        'n', 'o', 'p', 'q', 'r', 's', 't', 'u', 'v', 'w', 'x', 'y', 'z',
    ]);
    c
}

fn matches_at(text: &str, pattern: &str, i: usize) -> (b: bool)
    requires
        i + pattern@.len() <= text@.len(),
    ensures
        b == lower_matches_at(text@, pattern@, i as int),
{
    let m = pattern.unicode_len();
    let n = text.unicode_len();
    let mut j: usize = 0;
    while j < m
        invariant
            m == pattern@.len(),
            n == text@.len(),
            i + m <= text@.len(),
            j <= m,
            forall|q: int| 0 <= q < j ==> ascii_lower(#[trigger] text@[i + q]) == pattern@[q],
        decreases m - j,
    {
        if lower_char(text.get_char(i + j)) != pattern.get_char(j) {
            assert(ascii_lower(text@[i + j]) != pattern@[j as int]);
            return false;
        }
        j = j + 1;
    }
    true
}

/// Whether `pattern` occurs in the ASCII-lowercased `text`.
pub fn contains_lowercase(text: &str, pattern: &str) -> (b: bool)
    ensures
        b == lower_contains(text@, pattern@),
{
    let n = text.unicode_len();
    let m = pattern.unicode_len();
    if m > n {
        return false;
    }
    let mut i: usize = 0;
    while i <= n - m
        invariant
            n == text@.len(),
            m == pattern@.len(),
            m <= n,
            i <= n - m + 1,
            forall|p: int| 0 <= p < i ==> !#[trigger] lower_matches_at(text@, pattern@, p),
        decreases n - m + 1 - i,
    {
        if matches_at(text, pattern, i) {
            return true;
        }
        i = i + 1;
    }
    proof {
        assert forall|p: int| 0 <= p && p + m <= n implies !#[trigger] lower_matches_at(text@, pattern@, p) by {
            assert(p < i);
        }
    }
    false
}

/// Safety profile of a command: access control, flow control, and security are
/// recognised by capability name; positioning is comfort motion; all else is comfort.
pub open spec fn safety_profile_of(capability: Seq<char>, payload: CommandPayloadKind) -> AutomationSafetyProfile {
    if lower_contains(capability, "lock"@) || lower_contains(capability, "door"@) {
        AutomationSafetyProfile::AccessControl
    } else if lower_contains(capability, "valve"@) || lower_contains(capability, "flow"@) {
        AutomationSafetyProfile::FlowControl
    } else if lower_contains(capability, "camera"@) || lower_contains(capability, "security"@) {
        AutomationSafetyProfile::Security
    } else if payload is PositionGoTo || payload is PositionMove {
        AutomationSafetyProfile::ComfortMotion
    } else {
        AutomationSafetyProfile::Comfort
    }
}

/// Requirements a motion command adds: fresh state and stop support for any
/// position command, calibration and a current position for an absolute target.
pub open spec fn safety_requirements_of(capability: Seq<char>, payload: CommandPayloadKind) -> Seq<AutomationSafetyRequirement> {
    if safety_profile_of(capability, payload) != AutomationSafetyProfile::ComfortMotion {
        Seq::empty()
    } else if payload is PositionGoTo {
        seq![
            AutomationSafetyRequirement::FreshState,
            AutomationSafetyRequirement::StopSupport,
            AutomationSafetyRequirement::Calibration,
            AutomationSafetyRequirement::Position,
        ]
    } else {
        seq![AutomationSafetyRequirement::FreshState, AutomationSafetyRequirement::StopSupport]
    }
}

/// Classifies one command target and payload.
pub fn classify_command(capability: &str, payload: CommandPayloadKind) -> (r: (AutomationSafetyProfile, Vec<AutomationSafetyRequirement>))
    ensures
        r.0 == safety_profile_of(capability@, payload),
        r.1@ == safety_requirements_of(capability@, payload),
{
    let mut requirements: Vec<AutomationSafetyRequirement> = Vec::new();
    let profile = if contains_lowercase(capability, "lock") || contains_lowercase(capability, "door") {
        AutomationSafetyProfile::AccessControl
    } else if contains_lowercase(capability, "valve") || contains_lowercase(capability, "flow") {
        AutomationSafetyProfile::FlowControl
    } else if contains_lowercase(capability, "camera") || contains_lowercase(capability, "security") {
        AutomationSafetyProfile::Security
    } else {
        match payload {
            CommandPayloadKind::PositionGoTo(_) => {
                requirements.push(AutomationSafetyRequirement::FreshState);
                requirements.push(AutomationSafetyRequirement::StopSupport);
                requirements.push(AutomationSafetyRequirement::Calibration);
                requirements.push(AutomationSafetyRequirement::Position);
                AutomationSafetyProfile::ComfortMotion
            },
            CommandPayloadKind::PositionMove => {
                requirements.push(AutomationSafetyRequirement::FreshState);
                requirements.push(AutomationSafetyRequirement::StopSupport);
                AutomationSafetyProfile::ComfortMotion
            },
            _ => AutomationSafetyProfile::Comfort,
        }
    };
    proof {
        reveal_strlit("lock");
        reveal_strlit("door");
        reveal_strlit("valve");
        reveal_strlit("flow");
        reveal_strlit("camera");
        reveal_strlit("security");
    }
    assert(requirements@ =~= safety_requirements_of(capability@, payload));
    (profile, requirements)
}

/// Whether a profile demands explicit user approval before activation.
pub open spec fn profile_needs_approval(p: AutomationSafetyProfile) -> bool {
    p == AutomationSafetyProfile::AccessControl || p == AutomationSafetyProfile::FlowControl
        || p == AutomationSafetyProfile::Security
}

/// Access control, flow control, and security plans need explicit user approval;
/// every other plan needs only an activation grant.
pub fn approval_for(profiles: &Vec<AutomationSafetyProfile>) -> (a: AutomationApprovalRequirement)
    ensures
        a == (if exists|i: int| 0 <= i < profiles@.len() && profile_needs_approval(#[trigger] profiles@[i]) {
            AutomationApprovalRequirement::ExplicitUserApproval
        } else {
            AutomationApprovalRequirement::ActivationGrant
        }),
{
    let mut i: usize = 0;
    while i < profiles.len()
        invariant
            i <= profiles@.len(),
            forall|j: int| 0 <= j < i ==> !profile_needs_approval(#[trigger] profiles@[j]),
        decreases profiles@.len() - i,
    {
        let p = profiles[i];
        if p == AutomationSafetyProfile::AccessControl || p == AutomationSafetyProfile::FlowControl || p
            == AutomationSafetyProfile::Security {
            return AutomationApprovalRequirement::ExplicitUserApproval;
        }
        i = i + 1;
    }
    AutomationApprovalRequirement::ActivationGrant
}

/// How an automation selects devices.
#[derive(Clone, Debug)]
pub enum AutomationDeviceReference {
    Device { device_id: u64 },
    Alias { alias: String },
    Space { space_id: u64 },
}

/// One authored command target.
#[derive(Clone, Debug)]
pub struct AutomationTargetReference {
    pub device: AutomationDeviceReference,
    pub endpoint_id: Option<String>,
    pub capability: String,
}

/// Structural equality of two targets.
pub open spec fn same_target(a: AutomationTargetReference, b: AutomationTargetReference) -> bool {
    &&& match (a.device, b.device) {
        (AutomationDeviceReference::Device { device_id: x }, AutomationDeviceReference::Device { device_id: y }) => x == y,
        (AutomationDeviceReference::Alias { alias: x }, AutomationDeviceReference::Alias { alias: y }) => x@ == y@,
        (AutomationDeviceReference::Space { space_id: x }, AutomationDeviceReference::Space { space_id: y }) => x == y,
        _ => false,
    }
    &&& match (a.endpoint_id, b.endpoint_id) {
        (None, None) => true,
        (Some(x), Some(y)) => x@ == y@,
        _ => false,
    }
    &&& a.capability@ == b.capability@
}

/// Equality of two authored targets.
pub fn targets_equal(a: &AutomationTargetReference, b: &AutomationTargetReference) -> (r: bool)
    ensures
        r == same_target(*a, *b),
{
    let device = match (&a.device, &b.device) {
        (AutomationDeviceReference::Device { device_id: x }, AutomationDeviceReference::Device { device_id: y }) => *x == *y,
        (AutomationDeviceReference::Alias { alias: x }, AutomationDeviceReference::Alias { alias: y }) => str_eq(x.as_str(), y.as_str()),
        (AutomationDeviceReference::Space { space_id: x }, AutomationDeviceReference::Space { space_id: y }) => *x == *y,
        _ => false,
    };
    let endpoint = match (&a.endpoint_id, &b.endpoint_id) {
        (None, None) => true,
        (Some(x), Some(y)) => str_eq(x.as_str(), y.as_str()),
        _ => false,
    };
    device && endpoint && str_eq(a.capability.as_str(), b.capability.as_str())
}

/// Whether action `i` survives desired-state reduction: a non-command action
/// always does; a command does unless a later command in the same run of
/// consecutive commands addresses the same target.
pub open spec fn action_survives(actions: Seq<Option<AutomationTargetReference>>, i: int) -> bool {
    match actions[i] {
        None => true,
        Some(t) => !exists|j: int|
            i < j < actions.len() && (forall|m: int| i < m <= j ==> #[trigger] actions[m] is Some) && same_target(
                actions[j]->0,
                t,
            ),
    }
}


} // verus!
