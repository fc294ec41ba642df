//! SDK-neutral Matter controller contract: bounded requests and redacted responses.

use vstd::prelude::*;

use crate::authentication::{decimal_chars, push_decimal};

use crate::ports::SecretValue;

verus! {

/// Maximum attribute paths in one controller read or logical subscription.
pub const MAX_MATTER_ATTRIBUTE_PATHS_PER_REQUEST: usize = 256;

/// Maximum items returned in one controller response page or batch.
pub const MAX_MATTER_CONTROLLER_RESPONSE_ITEMS: usize = 256;

/// Invalid SDK-neutral controller request contract.
#[derive(Clone, Copy, Debug, PartialEq, Eq, Structural)]
pub enum MatterControllerContractError {
    /// At least one attribute path is required.
    EmptyAttributeSelection,
    /// Attribute selection exceeded its fixed bound.
    TooManyAttributePaths,
    /// Attribute selection contained a duplicate path.
    DuplicateAttributePath,
    /// Subscription interval was zero or inverted.
    InvalidSubscriptionInterval,
    /// Normalized command percent exceeded one hundred.
    PercentOutOfRange,
    /// Controller response exceeded its fixed batch/page bound.
    TooManyResponseItems,
}

/// The stable human-readable message of a contract error.
pub open spec fn contract_error_message(e: MatterControllerContractError) -> Seq<char> {
    match e {
        MatterControllerContractError::EmptyAttributeSelection => "Matter attribute selection must not be empty"@,
        MatterControllerContractError::TooManyAttributePaths => "Matter attribute selection exceeds 256 paths"@,
        MatterControllerContractError::DuplicateAttributePath => "Matter attribute selection contains a duplicate path"@,
        MatterControllerContractError::InvalidSubscriptionInterval => "Matter subscription interval must be non-zero and ordered"@,
        MatterControllerContractError::PercentOutOfRange => "Matter command percent must be between zero and one hundred"@,
        MatterControllerContractError::TooManyResponseItems => "Matter controller response exceeds 256 items"@,
    }
}

impl MatterControllerContractError {
    /// Stable human-readable message.
    pub fn message(&self) -> (s: &'static str)
        ensures
            s@ == contract_error_message(*self),
    {
        match self {
            MatterControllerContractError::EmptyAttributeSelection => "Matter attribute selection must not be empty",
            MatterControllerContractError::TooManyAttributePaths => "Matter attribute selection exceeds 256 paths",
            MatterControllerContractError::DuplicateAttributePath => "Matter attribute selection contains a duplicate path",
            MatterControllerContractError::InvalidSubscriptionInterval => "Matter subscription interval must be non-zero and ordered",
            MatterControllerContractError::PercentOutOfRange => "Matter command percent must be between zero and one hundred",
            MatterControllerContractError::TooManyResponseItems => "Matter controller response exceeds 256 items",
        }
    }
}

/// Bounded controller response items.
#[derive(Clone, Debug, PartialEq, Eq)]
pub struct MatterControllerItems<T>(Vec<T>);

impl<T> View for MatterControllerItems<T> {
    type V = Seq<T>;

    closed spec fn view(&self) -> Seq<T> {
        self.0@
    }
}

impl<T> MatterControllerItems<T> {
    /// Creates one bounded controller response.
    pub fn new(items: Vec<T>) -> (r: Result<Self, MatterControllerContractError>)
        ensures
            r is Ok <==> items@.len() <= MAX_MATTER_CONTROLLER_RESPONSE_ITEMS,
            r matches Ok(v) ==> v@ == items@,
            r matches Err(e) ==> e == MatterControllerContractError::TooManyResponseItems,
    {
        if items.len() > MAX_MATTER_CONTROLLER_RESPONSE_ITEMS {
            Err(MatterControllerContractError::TooManyResponseItems)
        } else {
            Ok(MatterControllerItems(items))
        }
    }

    /// An empty response.
    pub fn empty() -> (v: Self)
        ensures
            v@ == Seq::<T>::empty(),
    {
        MatterControllerItems(Vec::new())
    }

    /// Returns the bounded response values.
    pub fn as_slice(&self) -> (s: &[T])
        ensures
            s@ == self@,
    {
        self.0.as_slice()
    }

    /// Consumes the bounded wrapper.
    pub fn into_vec(self) -> (v: Vec<T>)
        ensures
            v@ == self@,
    {
        self.0
    }

}

/// Live fabric state reported by a controller implementation.
#[derive(Clone, Copy, Debug, PartialEq, Eq, Structural)]
pub enum MatterFabricState {
    /// Fabric is loaded and controller operations may proceed.
    Active,
    /// Fabric metadata exists but required controller state is unavailable.
    Unavailable,
    /// Fabric requires explicit operator repair.
    RepairRequired,
}

/// Result of a controller-side node removal attempt.
#[derive(Clone, Copy, Debug, PartialEq, Eq, Structural)]
pub enum MatterRemovalOutcome {
    Removed,
    NotPresent,
    PartialOutcome,
}

/// Result of requesting commissioning cancellation.
#[derive(Clone, Copy, Debug, PartialEq, Eq, Structural)]
pub enum MatterCancellationOutcome {
    Cancelled,
    AlreadyCompleted,
    OutcomeUnknown,
}

/// Governed Door Lock state.
#[derive(Clone, Copy, Debug, PartialEq, Eq, Structural)]
pub enum MatterLockState {
    Locked,
    Unlocked,
    NotFullyLocked,
    Unknown,
}

/// One attribute path: node, endpoint, cluster, attribute.
#[derive(Clone, Copy, Debug, PartialEq, Eq, Structural, Hash)]
pub struct MatterAttributePath {
    pub node_id: u64,
    pub endpoint: u16,
    pub cluster_id: u32,
    pub attribute_id: u32,
}

/// Validated bounded attribute selection.
#[derive(Clone, Debug)]
pub struct MatterAttributeSelection(Vec<MatterAttributePath>);

impl View for MatterAttributeSelection {
    type V = Seq<MatterAttributePath>;

    closed spec fn view(&self) -> Seq<MatterAttributePath> {
        self.0@
    }
}

/// The error, if any, that selection validation reports for `paths`.
pub open spec fn selection_error(paths: Seq<MatterAttributePath>) -> Option<MatterControllerContractError> {
    if paths.len() == 0 {
        Some(MatterControllerContractError::EmptyAttributeSelection)
    } else if paths.len() > MAX_MATTER_ATTRIBUTE_PATHS_PER_REQUEST {
        Some(MatterControllerContractError::TooManyAttributePaths)
    } else if !paths.no_duplicates() {
        Some(MatterControllerContractError::DuplicateAttributePath)
    } else {
        None
    }
}

fn has_duplicate(paths: &Vec<MatterAttributePath>) -> (b: bool)
    ensures
        b == !paths@.no_duplicates(),
{
    let n = paths.len();
    let mut i: usize = 0;
    while i < n
        invariant
            n == paths@.len(),
            i <= n,
            forall|a: int, b: int| 0 <= a < i && a < b < n ==> paths@[a] != paths@[b],
        decreases n - i,
    {
        let mut j: usize = i + 1;
        while j < n
            invariant
                n == paths@.len(),
                i < n,
                i < j <= n,
                forall|a: int, b: int| 0 <= a < i && a < b < n ==> paths@[a] != paths@[b],
                forall|b: int| i < b < j ==> paths@[i as int] != paths@[b],
            decreases n - j,
        {
            if paths[i] == paths[j] {
                return true;
            }
            j = j + 1;
        }
        i = i + 1;
    }
    false
}

impl MatterAttributeSelection {
    /// Creates a non-empty, bounded, duplicate-free path selection.
    pub fn new(paths: Vec<MatterAttributePath>) -> (r: Result<Self, MatterControllerContractError>)
        ensures
            match selection_error(paths@) {
                Some(e) => r == Err::<Self, MatterControllerContractError>(e),
                None => r matches Ok(s) && s@ == paths@,
            },
    {
        if paths.len() == 0 {
            return Err(MatterControllerContractError::EmptyAttributeSelection);
        }
        if paths.len() > MAX_MATTER_ATTRIBUTE_PATHS_PER_REQUEST {
            return Err(MatterControllerContractError::TooManyAttributePaths);
        }
        if has_duplicate(&paths) {
            return Err(MatterControllerContractError::DuplicateAttributePath);
        }
        Ok(MatterAttributeSelection(paths))
    }

    /// A second selection with the same paths.
    pub fn duplicate(&self) -> (s: Self)
        ensures
            s@ == self@,
    {
        let mut paths: Vec<MatterAttributePath> = Vec::new();
        let mut i: usize = 0;
        while i < self.0.len()
            invariant
                i <= self.0@.len(),
                paths@ == self.0@.take(i as int),
            decreases self.0@.len() - i,
        {
            paths.push(self.0[i]);
            i = i + 1;
        }
        assert(self.0@.take(self.0@.len() as int) =~= self.0@);
        MatterAttributeSelection(paths)
    }

    /// Returns selected paths.
    pub fn paths(&self) -> (p: &[MatterAttributePath])
        ensures
            p@ == self@,
    {
        self.0.as_slice()
    }

    /// Every selection is non-empty, bounded, and duplicate-free.
    pub closed spec fn valid(&self) -> bool {
        selection_error(self.0@) is None
    }
}

/// Whether a subscription interval is non-empty and ordered.
pub open spec fn subscription_interval_valid(minimum: u64, maximum: u64) -> bool {
    maximum != 0 && minimum <= maximum
}

/// Request to establish or restore a logical subscription.
#[derive(Clone, Debug)]
pub struct MatterSubscriptionRequest {
    pub subscription_id: String,
    pub fabric_id: u64,
    pub node_id: u64,
    pub selection: MatterAttributeSelection,
    pub minimum_interval_millis: u64,
    pub maximum_interval_millis: u64,
}

impl MatterSubscriptionRequest {
    /// Creates a subscription request with an ordered non-empty interval.
    pub fn new(
        subscription_id: String,
        fabric_id: u64,
        node_id: u64,
        selection: MatterAttributeSelection,
        minimum_interval_millis: u64,
        maximum_interval_millis: u64,
    ) -> (r: Result<Self, MatterControllerContractError>)
        ensures
            r is Ok <==> subscription_interval_valid(minimum_interval_millis, maximum_interval_millis),
            r matches Err(e) ==> e == MatterControllerContractError::InvalidSubscriptionInterval,
            r matches Ok(q) ==> q.subscription_id@ == subscription_id@ && q.fabric_id == fabric_id
                && q.node_id == node_id && q.selection@ == selection@ && q.minimum_interval_millis
                == minimum_interval_millis && q.maximum_interval_millis == maximum_interval_millis,
    {
        if maximum_interval_millis == 0 || minimum_interval_millis > maximum_interval_millis {
            return Err(MatterControllerContractError::InvalidSubscriptionInterval);
        }
        Ok(MatterSubscriptionRequest {
            subscription_id,
            fabric_id,
            node_id,
            selection,
            minimum_interval_millis,
            maximum_interval_millis,
        })
    }
}

/// Bounded read request used for observation and notification-gap recovery.
#[derive(Clone, Debug)]
pub struct MatterReadRequest {
    pub fabric_id: u64,
    pub node_id: u64,
    pub selection: MatterAttributeSelection,
}

/// SDK-neutral command admitted only to the trusted Matter adapter.
#[derive(Clone, Copy, Debug, PartialEq, Eq, Structural)]
pub enum MatterControllerCommand {
    SetOnOff(bool),
    SetLevelPercent(u8),
    SetPositionPercent(u8),
    Stop,
    SetLock(MatterLockState),
}

/// Whether the command's normalized values are within capability bounds.
pub open spec fn command_in_range(command: MatterControllerCommand) -> bool {
    match command {
        MatterControllerCommand::SetLevelPercent(v) => v <= 100,
        MatterControllerCommand::SetPositionPercent(v) => v <= 100,
        _ => true,
    }
}

impl MatterControllerCommand {
    /// Rejects a percent above one hundred.
    pub fn validate(self) -> (r: Result<(), MatterControllerContractError>)
        ensures
            r is Ok <==> command_in_range(self),
            r matches Err(e) ==> e == MatterControllerContractError::PercentOutOfRange,
    {
        match self {
            MatterControllerCommand::SetLevelPercent(value) | MatterControllerCommand::SetPositionPercent(
                value,
            ) => {
                if value > 100 {
                    Err(MatterControllerContractError::PercentOutOfRange)
                } else {
                    Ok(())
                }
            },
            _ => Ok(()),
        }
    }
}

/// One validated controller invocation after common command policy.
#[derive(Clone, Debug, PartialEq, Eq, Structural)]
pub struct MatterInvokeRequest {
    pub projection_id: u64,
    pub fabric_id: u64,
    pub node_id: u64,
    pub endpoint: u16,
    pub desired_revision: u64,
    pub command: MatterControllerCommand,
}

impl MatterInvokeRequest {
    /// Creates a validated controller invocation.
    pub fn new(
        projection_id: u64,
        fabric_id: u64,
        node_id: u64,
        endpoint: u16,
        desired_revision: u64,
        command: MatterControllerCommand,
    ) -> (r: Result<Self, MatterControllerContractError>)
        ensures
            r is Ok <==> command_in_range(command),
            r matches Err(e) ==> e == MatterControllerContractError::PercentOutOfRange,
            r matches Ok(q) ==> q == (MatterInvokeRequest {
                projection_id,
                fabric_id,
                node_id,
                endpoint,
                desired_revision,
                command,
            }),
    {
        command.validate()?;
        Ok(MatterInvokeRequest { projection_id, fabric_id, node_id, endpoint, desired_revision, command })
    }
}

/// Debug text of a string value, as Rust's `Debug` for `str` renders it.
pub uninterp spec fn debug_quoted_text(s: Seq<char>) -> Seq<char>;

/// Renders `s` through `str`'s `Debug` implementation (quoted and escaped).
#[verifier::external_body]
pub(crate) fn debug_quoted(s: &str) -> (r: String)
    ensures
        r@ == debug_quoted_text(s@),
{
    format!("{:?}", s)
}

/// Sensitive setup input for one commissioning attempt.
#[derive(Clone)]
pub struct MatterCommissioningRequest {
    operation_id: u64,
    fabric_id: u64,
    setup_payload: SecretValue,
}

impl MatterCommissioningRequest {
    pub closed spec fn operation(&self) -> u64 {
        self.operation_id
    }

    pub closed spec fn fabric(&self) -> u64 {
        self.fabric_id
    }

    pub closed spec fn payload(&self) -> Seq<u8> {
        self.setup_payload@
    }

    /// Creates a commissioning request with non-serializable setup input.
    pub fn new(operation_id: u64, fabric_id: u64, setup_payload: SecretValue) -> (r: Self)
        ensures
            r.operation() == operation_id,
            r.fabric() == fabric_id,
            r.payload() == setup_payload@,
    {
        MatterCommissioningRequest { operation_id, fabric_id, setup_payload }
    }

    /// Returns the durable operation identity.
    pub fn operation_id(&self) -> (o: u64)
        ensures
            o == self.operation(),
    {
        self.operation_id
    }

    /// Returns the target fabric identity.
    pub fn fabric_id(&self) -> (f: u64)
        ensures
            f == self.fabric(),
    {
        self.fabric_id
    }

    /// Exposes setup input only to the controller implementation.
    pub fn setup_payload(&self) -> (b: &[u8])
        ensures
            b@ == self.payload(),
    {
        self.setup_payload.expose()
    }

    /// Debug rendering: identities are shown, the setup payload is redacted.
    pub fn debug_string(&self) -> (s: String)
        ensures
            s@ == "MatterCommissioningRequest { operation_id: "@ + decimal_chars(self.operation() as nat)
                + ", fabric_id: "@ + decimal_chars(self.fabric() as nat) + ", setup_payload: \"[REDACTED]\" }"@,
    {
        let mut s = String::from_str("MatterCommissioningRequest { operation_id: ");
        push_decimal(&mut s, self.operation_id);
        s.append(", fabric_id: ");
        push_decimal(&mut s, self.fabric_id);
        s.append(", setup_payload: \"[REDACTED]\" }");
        s
    }
}

/// Sensitive protected fabric export and one-time recovery key.
#[derive(Clone)]
pub struct MatterFabricExport {
    /// Versioned export format identifier.
    pub format: &'static str,
    envelope: SecretValue,
    recovery_key: SecretValue,
}

impl MatterFabricExport {
    pub closed spec fn envelope_bytes(&self) -> Seq<u8> {
        self.envelope@
    }

    pub closed spec fn recovery_key_bytes(&self) -> Seq<u8> {
        self.recovery_key@
    }

    pub closed spec fn format_text(&self) -> &'static str {
        self.format
    }

    /// Creates a sensitive export response.
    pub fn new(format: &'static str, envelope: SecretValue, recovery_key: SecretValue) -> (e: Self)
        ensures
            e.format_text() == format,
            e.envelope_bytes() == envelope@,
            e.recovery_key_bytes() == recovery_key@,
    {
        MatterFabricExport { format, envelope, recovery_key }
    }

    /// The versioned export format identifier.
    pub fn format(&self) -> (f: &'static str)
        ensures
            f == self.format_text(),
    {
        self.format
    }

    /// Exposes the encrypted envelope to explicit export handling.
    pub fn envelope(&self) -> (b: &[u8])
        ensures
            b@ == self.envelope_bytes(),
    {
        self.envelope.expose()
    }

    /// Exposes the one-time recovery key to explicit sensitive output handling.
    pub fn recovery_key(&self) -> (b: &[u8])
        ensures
            b@ == self.recovery_key_bytes(),
    {
        self.recovery_key.expose()
    }

    /// Debug rendering: the format is shown, the envelope and key are redacted.
    pub fn debug_string(&self) -> (s: String)
        ensures
            s@ == "MatterFabricExport { format: "@ + debug_quoted_text(self.format_text()@)
                + ", envelope: \"[REDACTED]\", recovery_key: \"[REDACTED]\" }"@,
    {
        let mut s = String::from_str("MatterFabricExport { format: ");
        let quoted = debug_quoted(self.format);
        s.append(quoted.as_str());
        s.append(", envelope: \"[REDACTED]\", recovery_key: \"[REDACTED]\" }");
        s
    }
}

/// Sensitive request to restore a protected fabric export.
#[derive(Clone)]
pub struct MatterRestoreRequest {
    operation_id: u64,
    expected_fabric_id: u64,
    envelope: SecretValue,
    recovery_key: SecretValue,
}

impl MatterRestoreRequest {
    pub closed spec fn operation(&self) -> u64 {
        self.operation_id
    }

    pub closed spec fn expected_fabric(&self) -> u64 {
        self.expected_fabric_id
    }

    pub closed spec fn envelope_bytes(&self) -> Seq<u8> {
        self.envelope@
    }

    pub closed spec fn recovery_key_bytes(&self) -> Seq<u8> {
        self.recovery_key@
    }

    /// Creates a non-serializable restore request.
    pub fn new(operation_id: u64, expected_fabric_id: u64, envelope: SecretValue, recovery_key: SecretValue) -> (r: Self)
        ensures
            r.operation() == operation_id,
            r.expected_fabric() == expected_fabric_id,
            r.envelope_bytes() == envelope@,
            r.recovery_key_bytes() == recovery_key@,
    {
        MatterRestoreRequest { operation_id, expected_fabric_id, envelope, recovery_key }
    }

    /// Returns the durable operation identity.
    pub fn operation_id(&self) -> (o: u64)
        ensures
            o == self.operation(),
    {
        self.operation_id
    }

    /// Returns the fabric identity expected inside the envelope.
    pub fn expected_fabric_id(&self) -> (f: u64)
        ensures
            f == self.expected_fabric(),
    {
        self.expected_fabric_id
    }

    /// Exposes the encrypted envelope only to the controller implementation.
    pub fn envelope(&self) -> (b: &[u8])
        ensures
            b@ == self.envelope_bytes(),
    {
        self.envelope.expose()
    }

    /// Exposes the recovery key only to the controller implementation.
    pub fn recovery_key(&self) -> (b: &[u8])
        ensures
            b@ == self.recovery_key_bytes(),
    {
        self.recovery_key.expose()
    }

    /// Debug rendering: identities are shown, the envelope and key are redacted.
    pub fn debug_string(&self) -> (s: String)
        ensures
            s@ == "MatterRestoreRequest { operation_id: "@ + decimal_chars(self.operation() as nat)
                + ", expected_fabric_id: "@ + decimal_chars(self.expected_fabric() as nat)
                + ", envelope: \"[REDACTED]\", recovery_key: \"[REDACTED]\" }"@,
    {
        let mut s = String::from_str("MatterRestoreRequest { operation_id: ");
        push_decimal(&mut s, self.operation_id);
        s.append(", expected_fabric_id: ");
        push_decimal(&mut s, self.expected_fabric_id);
        s.append(", envelope: \"[REDACTED]\", recovery_key: \"[REDACTED]\" }");
        s
    }
}

/// One controller event paired with its implementation-local cursor.
#[derive(Clone, Debug)]
pub struct MatterCursorEvent<E> {
    pub cursor: u64,
    pub event: E,
}

/// Bounded controller-event page.
#[derive(Clone, Debug)]
pub struct MatterEventPage<E> {
    earliest_cursor: Option<u64>,
    latest_cursor: Option<u64>,
    events: MatterControllerItems<MatterCursorEvent<E>>,
}

impl<E> MatterEventPage<E> {
    pub closed spec fn earliest(&self) -> Option<u64> {
        self.earliest_cursor
    }

    pub closed spec fn latest(&self) -> Option<u64> {
        self.latest_cursor
    }

    pub closed spec fn page_events(&self) -> Seq<MatterCursorEvent<E>> {
        self.events@
    }

    /// Creates one bounded controller-event page.
    pub fn new(
        earliest_cursor: Option<u64>,
        latest_cursor: Option<u64>,
        events: Vec<MatterCursorEvent<E>>,
    ) -> (r: Result<Self, MatterControllerContractError>)
        ensures
            r is Ok <==> events@.len() <= MAX_MATTER_CONTROLLER_RESPONSE_ITEMS,
            r matches Err(e) ==> e == MatterControllerContractError::TooManyResponseItems,
            r matches Ok(p) ==> p.earliest() == earliest_cursor && p.latest() == latest_cursor
                && p.page_events() == events@,
    {
        Ok(MatterEventPage { earliest_cursor, latest_cursor, events: MatterControllerItems::new(events)? })
    }

    /// Returns the earliest retained cursor.
    pub fn earliest_cursor(&self) -> (c: Option<u64>)
        ensures
            c == self.earliest(),
    {
        self.earliest_cursor
    }

    /// Returns the latest retained cursor.
    pub fn latest_cursor(&self) -> (c: Option<u64>)
        ensures
            c == self.latest(),
    {
        self.latest_cursor
    }

    /// Returns bounded cursor events.
    pub fn events(&self) -> (s: &[MatterCursorEvent<E>])
        ensures
            s@ == self.page_events(),
    {
        self.events.as_slice()
    }
}

} // verus!
