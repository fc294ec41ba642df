//! Resolution of authored automation targets against the device snapshot the
//! compiler validates with.

use vstd::prelude::*;

use crate::automation_compiler::{AutomationDeviceReference, AutomationTargetReference, AutomationValidationCode};
use crate::automation_events::{contains_field, contains_text, ResolvedAutomationTarget};
use crate::ports::str_eq;

verus! {

/// Lexicographic order of texts by code point, the order of their UTF-8 bytes.
pub open spec fn text_before(a: Seq<char>, b: Seq<char>) -> bool
    decreases a.len(),
{
    if a.len() == 0 {
        b.len() > 0
    } else if b.len() == 0 {
        false
    } else if a[0] != b[0] {
        (a[0] as u32) < (b[0] as u32)
    } else {
        text_before(a.drop_first(), b.drop_first())
    }
}

/// No text comes before itself, and of two texts at most one comes first.
pub proof fn lemma_text_before_asymmetric(a: Seq<char>, b: Seq<char>)
    ensures
        text_before(a, b) ==> !text_before(b, a),
    decreases a.len(),
{
    if a.len() > 0 && b.len() > 0 && a[0] == b[0] {
        lemma_text_before_asymmetric(a.drop_first(), b.drop_first());
    }
}

/// The text order is transitive.
pub proof fn lemma_text_before_transitive(a: Seq<char>, b: Seq<char>, c: Seq<char>)
    requires
        text_before(a, b),
        text_before(b, c),
    ensures
        text_before(a, c),
    decreases a.len(),
{
    if a.len() > 0 && b.len() > 0 && c.len() > 0 && a[0] == b[0] && b[0] == c[0] {
        lemma_text_before_transitive(a.drop_first(), b.drop_first(), c.drop_first());
    }
}

/// Whether `a` sorts strictly before `b` in code point order.
pub fn text_less(a: &str, b: &str) -> (r: bool)
    ensures
        r == text_before(a@, b@),
{
    let n = a.unicode_len();
    let m = b.unicode_len();
    let mut i: usize = 0;
    assert(a@.skip(0) =~= a@ && b@.skip(0) =~= b@);
    while i < n && i < m
        invariant
            n == a@.len(),
            m == b@.len(),
            i <= n,
            i <= m,
            text_before(a@, b@) == text_before(a@.skip(i as int), b@.skip(i as int)),
        decreases n - i,
    {
        let x = a.get_char(i);
        let y = b.get_char(i);
        assert(a@.skip(i as int)[0] == x && b@.skip(i as int)[0] == y);
        if x != y {
            return (x as u32) < (y as u32);
        }
        assert(a@.skip(i as int).drop_first() =~= a@.skip(i + 1));
        assert(b@.skip(i as int).drop_first() =~= b@.skip(i + 1));
        i = i + 1;
    }
    i == n && i < m
}

/// Sort key of a resolved target: its device, then its endpoint.
pub open spec fn target_key(t: ResolvedAutomationTarget) -> (u64, Seq<char>) {
    (t.device_id, t.endpoint_id@)
}

/// The sort keys of resolved targets, in order.
pub open spec fn target_keys(s: Seq<ResolvedAutomationTarget>) -> Seq<(u64, Seq<char>)> {
    s.map_values(|t: ResolvedAutomationTarget| target_key(t))
}

/// Whether key `a` sorts strictly before key `b`.
pub open spec fn key_before(a: (u64, Seq<char>), b: (u64, Seq<char>)) -> bool {
    a.0 < b.0 || (a.0 == b.0 && text_before(a.1, b.1))
}

/// Whether no key sorts strictly before one that precedes it.
pub open spec fn keys_sorted(s: Seq<(u64, Seq<char>)>) -> bool {
    forall|p: int, q: int| 0 <= p < q < s.len() ==> !key_before(#[trigger] s[q], #[trigger] s[p])
}

proof fn lemma_key_before_asymmetric(a: (u64, Seq<char>), b: (u64, Seq<char>))
    ensures
        key_before(a, b) ==> !key_before(b, a),
{
    lemma_text_before_asymmetric(a.1, b.1);
}

proof fn lemma_key_before_transitive(a: (u64, Seq<char>), b: (u64, Seq<char>), c: (u64, Seq<char>))
    requires
        key_before(a, b),
        key_before(b, c),
    ensures
        key_before(a, c),
{
    if a.0 == b.0 && b.0 == c.0 {
        lemma_text_before_transitive(a.1, b.1, c.1);
    }
}

fn key_less(device: u64, endpoint: &str, other: &ResolvedAutomationTarget) -> (r: bool)
    ensures
        r == key_before((device, endpoint@), target_key(*other)),
{
    device < other.device_id || (device == other.device_id && text_less(endpoint, other.endpoint_id.as_str()))
}

/// Inserts a target after every target that does not sort after it.
fn insert_sorted(out: &mut Vec<ResolvedAutomationTarget>, t: ResolvedAutomationTarget)
    requires
        keys_sorted(target_keys(old(out)@)),
    ensures
        keys_sorted(target_keys(final(out)@)),
        target_keys(final(out)@).to_multiset() == target_keys(old(out)@).to_multiset().insert(target_key(t)),
        final(out)@.len() == old(out)@.len() + 1,
        forall|k: int| 0 <= k < final(out)@.len() ==> #[trigger] final(out)@[k] == t || old(out)@.contains(final(out)@[k]),
{
    let ghost before = out@;
    let mut p: usize = 0;
    while p < out.len() && !key_less(t.device_id, t.endpoint_id.as_str(), &out[p])
        invariant
            out@ == before,
            p <= out@.len(),
            forall|q: int| 0 <= q < p ==> !key_before(target_key(t), #[trigger] target_key(out@[q])),
        decreases out@.len() - p,
    {
        p = p + 1;
    }
    let ghost x = target_key(t);
    out.insert(p, t);
    proof {
        let ks = target_keys(before);
        assert(target_keys(out@) =~= ks.insert(p as int, x));
        broadcast use vstd::seq_lib::group_to_multiset_ensures;
        assert forall|a: int, b: int| 0 <= a < b < out@.len() implies !key_before(
            #[trigger] target_keys(out@)[b],
            #[trigger] target_keys(out@)[a],
        ) by {
            let s = target_keys(out@);
            if b < p {
                assert(s[a] == ks[a] && s[b] == ks[b]);
            } else if b == p {
                assert(s[a] == ks[a]);
                assert(!key_before(x, target_key(before[a])));
            } else if a == p {
                assert(s[b] == ks[b - 1]);
                if key_before(s[b], x) {
                    assert(key_before(x, ks[p as int]));
                    if b - 1 == p {
                        lemma_key_before_asymmetric(x, ks[p as int]);
                    } else {
                        lemma_key_before_transitive(s[b], x, ks[p as int]);
                        assert(!key_before(ks[b - 1], ks[p as int]));
                    }
                }
            } else if a < p {
                assert(s[a] == ks[a] && s[b] == ks[b - 1]);
            } else {
                assert(s[a] == ks[a - 1] && s[b] == ks[b - 1]);
            }
        }
        assert forall|k: int| 0 <= k < out@.len() implies #[trigger] out@[k] == t || before.contains(out@[k]) by {
            if k < p {
                assert(out@[k] == before[k]);
            } else if k > p {
                assert(out@[k] == before[k - 1]);
            }
        }
    }
}

/// One endpoint of a snapshot device with the capability schemas it advertises.
#[derive(Clone, Debug)]
pub struct SnapshotEndpoint {
    pub endpoint_id: String,
    /// Versioned schemas of the advertised descriptors, such as `on_off.v1`.
    pub schemas: Vec<String>,
    /// Whether the endpoint reports a current position percent.
    pub position_known: bool,
}

/// The parts of a device record that target resolution reads.
#[derive(Clone, Debug)]
pub struct SnapshotDevice {
    pub device_id: u64,
    pub name: String,
    pub aliases: Vec<String>,
    pub spaces: Vec<u64>,
    /// Whether the device lifecycle is `Enrolled`.
    pub enrolled: bool,
    pub endpoints: Vec<SnapshotEndpoint>,
}

/// Why an authored target did not resolve.
#[derive(Clone, Copy, Debug, PartialEq, Eq, Structural)]
pub enum TargetResolutionError {
    /// No device matches the selector.
    ReferenceMissing,
    /// The alias names more than one device.
    AliasAmbiguous,
    /// A selected device is stale or removed.
    ReferenceStale,
    /// A selected device has no endpoint exposing the requested capability schema.
    CapabilityIncompatible,
    /// Without an endpoint id, the capability exists on several endpoints of the device.
    EndpointAmbiguous { device_id: u64 },
}

impl TargetResolutionError {
    /// The validation finding code reported for this failure.
    pub fn code(&self) -> (c: AutomationValidationCode)
        ensures
            c == match *self {
                TargetResolutionError::ReferenceMissing => AutomationValidationCode::ReferenceMissing,
                TargetResolutionError::AliasAmbiguous => AutomationValidationCode::ReferenceAmbiguous,
                TargetResolutionError::ReferenceStale => AutomationValidationCode::ReferenceStale,
                TargetResolutionError::CapabilityIncompatible => AutomationValidationCode::CapabilityIncompatible,
                TargetResolutionError::EndpointAmbiguous { .. } => AutomationValidationCode::ReferenceAmbiguous,
            },
    {
        match self {
            TargetResolutionError::ReferenceMissing => AutomationValidationCode::ReferenceMissing,
            TargetResolutionError::AliasAmbiguous => AutomationValidationCode::ReferenceAmbiguous,
            TargetResolutionError::ReferenceStale => AutomationValidationCode::ReferenceStale,
            TargetResolutionError::CapabilityIncompatible => AutomationValidationCode::CapabilityIncompatible,
            TargetResolutionError::EndpointAmbiguous { .. } => AutomationValidationCode::ReferenceAmbiguous,
        }
    }
}

/// Whether the selector picks the device.
pub open spec fn selects(reference: AutomationDeviceReference, d: SnapshotDevice) -> bool {
    match reference {
        AutomationDeviceReference::Device { device_id } => d.device_id == device_id,
        AutomationDeviceReference::Alias { alias } => d.name@ == alias@ || contains_text(d.aliases@, alias@),
        AutomationDeviceReference::Space { space_id } => d.spaces@.contains(space_id),
    }
}

/// Whether the `i`-th device of the snapshot is selected.
pub open spec fn selected_at(devices: Seq<SnapshotDevice>, reference: AutomationDeviceReference, i: int) -> bool {
    0 <= i < devices.len() && selects(reference, devices[i])
}

/// Whether the endpoint matches the requested endpoint, if any, and advertises
/// the requested capability schema.
pub open spec fn endpoint_offers(e: SnapshotEndpoint, target: AutomationTargetReference) -> bool {
    &&& match target.endpoint_id {
        None => true,
        Some(id) => id@ == e.endpoint_id@,
    }
    &&& contains_text(e.schemas@, target.capability@)
}

/// Ids of the endpoints that offer the target, in order.
pub open spec fn offered_endpoints(endpoints: Seq<SnapshotEndpoint>, target: AutomationTargetReference) -> Seq<
    Seq<char>,
>
    decreases endpoints.len(),
{
    if endpoints.len() == 0 {
        Seq::empty()
    } else {
        let rest = offered_endpoints(endpoints.drop_last(), target);
        if endpoint_offers(endpoints.last(), target) {
            rest.push(endpoints.last().endpoint_id@)
        } else {
            rest
        }
    }
}

/// The failure a selected device causes on its own, if any.
pub open spec fn endpoint_error(d: SnapshotDevice, target: AutomationTargetReference) -> Option<TargetResolutionError> {
    let n = offered_endpoints(d.endpoints@, target).len();
    if n == 0 {
        Some(TargetResolutionError::CapabilityIncompatible)
    } else if target.endpoint_id is None && n > 1 {
        Some(TargetResolutionError::EndpointAmbiguous { device_id: d.device_id })
    } else {
        None
    }
}

/// The keys a selected device contributes.
pub open spec fn device_targets(d: SnapshotDevice, target: AutomationTargetReference) -> Seq<(u64, Seq<char>)> {
    offered_endpoints(d.endpoints@, target).map_values(|e: Seq<char>| (d.device_id, e))
}

/// The keys all selected devices contribute, device after device.
pub open spec fn selected_targets(devices: Seq<SnapshotDevice>, target: AutomationTargetReference) -> Seq<
    (u64, Seq<char>),
>
    decreases devices.len(),
{
    if devices.len() == 0 {
        Seq::empty()
    } else {
        let rest = selected_targets(devices.drop_last(), target);
        if selects(target.device, devices.last()) {
            rest + device_targets(devices.last(), target)
        } else {
            rest
        }
    }
}

/// Whether device `i` is the first selected device that fails on its own.
pub open spec fn first_endpoint_failure(devices: Seq<SnapshotDevice>, target: AutomationTargetReference, i: int) -> bool {
    &&& selected_at(devices, target.device, i)
    &&& endpoint_error(devices[i], target) is Some
    &&& forall|j: int|
        0 <= j < i && #[trigger] selected_at(devices, target.device, j) ==> endpoint_error(devices[j], target) is None
}

/// The failure resolving the target against the snapshot reports, if any:
/// a missing selection, then an ambiguous alias, then a stale device, then the
/// first selected device whose endpoints do not fit.
pub open spec fn resolution_error(devices: Seq<SnapshotDevice>, target: AutomationTargetReference) -> Option<
    TargetResolutionError,
> {
    if !exists|i: int| #[trigger] selected_at(devices, target.device, i) {
        Some(TargetResolutionError::ReferenceMissing)
    } else if target.device is Alias && exists|i: int, j: int|
        i < j && #[trigger] selected_at(devices, target.device, i) && #[trigger] selected_at(devices, target.device, j) {
        Some(TargetResolutionError::AliasAmbiguous)
    } else if exists|i: int| #[trigger] selected_at(devices, target.device, i) && !devices[i].enrolled {
        Some(TargetResolutionError::ReferenceStale)
    } else if exists|i: int| #[trigger] first_endpoint_failure(devices, target, i) {
        endpoint_error(devices[choose|i: int| #[trigger] first_endpoint_failure(devices, target, i)], target)
    } else {
        None
    }
}

proof fn lemma_first_failure_unique(devices: Seq<SnapshotDevice>, target: AutomationTargetReference, i: int, k: int)
    requires
        first_endpoint_failure(devices, target, i),
        first_endpoint_failure(devices, target, k),
    ensures
        i == k,
{
    if i < k {
        assert(selected_at(devices, target.device, i));
    } else if k < i {
        assert(selected_at(devices, target.device, k));
    }
}

fn contains_space(spaces: &Vec<u64>, space_id: u64) -> (b: bool)
    ensures
        b == spaces@.contains(space_id),
{
    let mut i: usize = 0;
    while i < spaces.len()
        invariant
            i <= spaces@.len(),
            forall|j: int| 0 <= j < i ==> spaces@[j] != space_id,
        decreases spaces@.len() - i,
    {
        if spaces[i] == space_id {
            assert(spaces@[i as int] == space_id);
            return true;
        }
        i = i + 1;
    }
    false
}

/// Whether the selector picks the device.
pub fn device_selected(reference: &AutomationDeviceReference, d: &SnapshotDevice) -> (b: bool)
    ensures
        b == selects(*reference, *d),
{
    match reference {
        AutomationDeviceReference::Device { device_id } => d.device_id == *device_id,
        AutomationDeviceReference::Alias { alias } => str_eq(d.name.as_str(), alias.as_str()) || contains_field(
            &d.aliases,
            alias.as_str(),
        ),
        AutomationDeviceReference::Space { space_id } => contains_space(&d.spaces, *space_id),
    }
}

/// Ids of the endpoints that offer the target, in order.
pub fn offered_endpoint_ids(endpoints: &Vec<SnapshotEndpoint>, target: &AutomationTargetReference) -> (ids: Vec<String>)
    ensures
        ids@.len() == offered_endpoints(endpoints@, *target).len(),
        forall|k: int| 0 <= k < ids@.len() ==> #[trigger] ids@[k]@ == offered_endpoints(endpoints@, *target)[k],
{
    let mut ids: Vec<String> = Vec::new();
    let mut i: usize = 0;
    while i < endpoints.len()
        invariant
            i <= endpoints@.len(),
            ids@.len() == offered_endpoints(endpoints@.take(i as int), *target).len(),
            forall|k: int|
                0 <= k < ids@.len() ==> #[trigger] ids@[k]@ == offered_endpoints(endpoints@.take(i as int), *target)[k],
        decreases endpoints@.len() - i,
    {
        let e = &endpoints[i];
        let id_matches = match &target.endpoint_id {
            None => true,
            Some(id) => str_eq(id.as_str(), e.endpoint_id.as_str()),
        };
        let offers = id_matches && contains_field(&e.schemas, target.capability.as_str());
        assert(endpoints@.take(i + 1).drop_last() =~= endpoints@.take(i as int));
        assert(endpoints@.take(i + 1).last() == endpoints@[i as int]);
        if offers {
            ids.push(e.endpoint_id.clone());
        }
        i = i + 1;
    }
    assert(endpoints@.take(endpoints@.len() as int) =~= endpoints@);
    ids
}

/// Whether `v` is the resolution of the target: every offered endpoint of every
/// selected device, each once per time it is offered, ordered by device and then
/// endpoint, all with the requested capability schema.
pub open spec fn resolves_to(devices: Seq<SnapshotDevice>, target: AutomationTargetReference, v: Seq<ResolvedAutomationTarget>) -> bool {
    &&& keys_sorted(target_keys(v))
    &&& target_keys(v).to_multiset() == selected_targets(devices, target).to_multiset()
    &&& forall|k: int| 0 <= k < v.len() ==> (#[trigger] v[k]).capability@ == target.capability@
}

/// The part of the target's JSON pointer a resolution failure is reported at.
pub open spec fn failure_pointer_suffix(e: TargetResolutionError) -> Seq<char> {
    match e {
        TargetResolutionError::ReferenceMissing => "/device"@,
        TargetResolutionError::AliasAmbiguous => "/device"@,
        TargetResolutionError::ReferenceStale => "/device"@,
        TargetResolutionError::CapabilityIncompatible => ""@,
        TargetResolutionError::EndpointAmbiguous { .. } => "/endpoint_id"@,
    }
}

impl TargetResolutionError {
    /// The part of the target's JSON pointer this failure is reported at.
    pub fn pointer_suffix(&self) -> (s: &'static str)
        ensures
            s@ == failure_pointer_suffix(*self),
    {
        match self {
            TargetResolutionError::ReferenceMissing => "/device",
            TargetResolutionError::AliasAmbiguous => "/device",
            TargetResolutionError::ReferenceStale => "/device",
            TargetResolutionError::CapabilityIncompatible => "",
            TargetResolutionError::EndpointAmbiguous { .. } => "/endpoint_id",
        }
    }
}

/// Resolves an authored target against the snapshot devices.
///
/// On success the targets are every offered endpoint of every selected device,
/// each once per time it is offered, ordered by device and then endpoint, all
/// with the requested capability schema.
pub fn resolve_target(devices: &Vec<SnapshotDevice>, target: &AutomationTargetReference) -> (r: Result<
    Vec<ResolvedAutomationTarget>,
    TargetResolutionError,
>)
    ensures
        match resolution_error(devices@, *target) {
            Some(e) => r == Err::<Vec<ResolvedAutomationTarget>, TargetResolutionError>(e),
            None => r matches Ok(v) && resolves_to(devices@, *target, v@),
        },
{
    let ghost ds = devices@;
    let mut any = false;
    let mut many = false;
    let mut stale = false;
    let mut failure: Option<TargetResolutionError> = None;
    let mut out: Vec<ResolvedAutomationTarget> = Vec::new();
    let mut i: usize = 0;
    assert(target_keys(out@) =~= Seq::<(u64, Seq<char>)>::empty());
    assert(ds.take(0) =~= Seq::<SnapshotDevice>::empty());
    while i < devices.len()
        invariant
            ds == devices@,
            i <= ds.len(),
            any == exists|j: int| 0 <= j < i && #[trigger] selected_at(ds, target.device, j),
            many == exists|j: int, k: int|
                0 <= j < k < i && #[trigger] selected_at(ds, target.device, j) && #[trigger] selected_at(
                    ds,
                    target.device,
                    k,
                ),
            stale == exists|j: int| 0 <= j < i && #[trigger] selected_at(ds, target.device, j) && !ds[j].enrolled,
            failure is None ==> forall|j: int|
                0 <= j < i && #[trigger] selected_at(ds, target.device, j) ==> endpoint_error(ds[j], *target) is None,
            failure matches Some(e) ==> exists|j: int|
                0 <= j < i && #[trigger] first_endpoint_failure(ds, *target, j) && endpoint_error(ds[j], *target) == Some(e),
            keys_sorted(target_keys(out@)),
            target_keys(out@).to_multiset() == selected_targets(ds.take(i as int), *target).to_multiset(),
            forall|k: int| 0 <= k < out@.len() ==> (#[trigger] out@[k]).capability@ == target.capability@,
        decreases ds.len() - i,
    {
        let d = &devices[i];
        assert(ds.take(i + 1).drop_last() =~= ds.take(i as int));
        assert(ds.take(i + 1).last() == ds[i as int]);
        if device_selected(&target.device, d) {
            assert(selected_at(ds, target.device, i as int));
            if any {
                many = true;
            }
            any = true;
            if !d.enrolled {
                stale = true;
            }
            let ids = offered_endpoint_ids(&d.endpoints, target);
            if failure.is_none() {
                if ids.len() == 0 {
                    failure = Some(TargetResolutionError::CapabilityIncompatible);
                } else if target.endpoint_id.is_none() && ids.len() > 1 {
                    failure = Some(TargetResolutionError::EndpointAmbiguous { device_id: d.device_id });
                }
                proof {
                    if failure is Some {
                        assert(first_endpoint_failure(ds, *target, i as int));
                    }
                }
            }
            let ghost prior = selected_targets(ds.take(i as int), *target);
            let ghost contributed = device_targets(ds[i as int], *target);
            let mut j: usize = 0;
            while j < ids.len()
                invariant
                    ds == devices@,
                    i < ds.len(),
                    d == &ds[i as int],
                    j <= ids@.len(),
                    ids@.len() == offered_endpoints(d.endpoints@, *target).len(),
                    forall|k: int| 0 <= k < ids@.len() ==> #[trigger] ids@[k]@ == offered_endpoints(d.endpoints@, *target)[k],
                    contributed == device_targets(ds[i as int], *target),
                    keys_sorted(target_keys(out@)),
                    target_keys(out@).to_multiset() == (prior + contributed.take(j as int)).to_multiset(),
                    forall|k: int| 0 <= k < out@.len() ==> (#[trigger] out@[k]).capability@ == target.capability@,
                decreases ids@.len() - j,
            {
                let t = ResolvedAutomationTarget {
                    device_id: d.device_id,
                    endpoint_id: ids[j].clone(),
                    capability: target.capability.clone(),
                };
                let ghost before = out@;
                insert_sorted(&mut out, t);
                proof {
                    broadcast use vstd::seq_lib::group_to_multiset_ensures;
                    assert(contributed[j as int] == target_key(t));
                    assert((prior + contributed.take(j + 1)) =~= (prior + contributed.take(j as int)).push(target_key(t)));
                    assert forall|k: int| 0 <= k < out@.len() implies (#[trigger] out@[k]).capability@ == target.capability@ by {
                        if out@[k] != t {
                            let w = choose|w: int| 0 <= w < before.len() && before[w] == out@[k];
                            assert(before[w].capability@ == target.capability@);
                        }
                    }
                }
                j = j + 1;
            }
            assert(contributed.take(ids@.len() as int) =~= contributed);
        }
        i = i + 1;
    }
    assert(ds.take(ds.len() as int) =~= ds);
    proof {
        if !any {
            assert(!exists|j: int| #[trigger] selected_at(ds, target.device, j));
        }
    }
    if !any {
        return Err(TargetResolutionError::ReferenceMissing);
    }
    let is_alias = match &target.device {
        AutomationDeviceReference::Alias { .. } => true,
        _ => false,
    };
    if is_alias && many {
        return Err(TargetResolutionError::AliasAmbiguous);
    }
    if stale {
        return Err(TargetResolutionError::ReferenceStale);
    }
    match failure {
        Some(e) => {
            proof {
                let j = choose|j: int|
                    0 <= j < ds.len() && #[trigger] first_endpoint_failure(ds, *target, j) && endpoint_error(ds[j], *target)
                        == Some(e);
                let c = choose|c: int| #[trigger] first_endpoint_failure(ds, *target, c);
                lemma_first_failure_unique(ds, *target, j, c);
            }
            Err(e)
        },
        None => {
            proof {
                assert forall|c: int| !#[trigger] first_endpoint_failure(ds, *target, c) by {
                    if first_endpoint_failure(ds, *target, c) {
                        assert(selected_at(ds, target.device, c));
                    }
                }
            }
            Ok(out)
        },
    }
}

proof fn lemma_offered_endpoint_exists(endpoints: Seq<SnapshotEndpoint>, target: AutomationTargetReference, id: Seq<char>)
    requires
        offered_endpoints(endpoints, target).contains(id),
    ensures
        exists|j: int| 0 <= j < endpoints.len() && endpoints[j].endpoint_id@ == id && #[trigger] endpoint_offers(endpoints[j], target),
    decreases endpoints.len(),
{
    let rest = offered_endpoints(endpoints.drop_last(), target);
    if rest.contains(id) {
        lemma_offered_endpoint_exists(endpoints.drop_last(), target, id);
        let j = choose|j: int|
            0 <= j < endpoints.drop_last().len() && endpoints.drop_last()[j].endpoint_id@ == id && #[trigger] endpoint_offers(
                endpoints.drop_last()[j],
                target,
            );
        assert(endpoints[j] == endpoints.drop_last()[j]);
    } else {
        let last = endpoints.len() - 1;
        assert(endpoint_offers(endpoints[last], target));
    }
}

proof fn lemma_selected_target_source(devices: Seq<SnapshotDevice>, target: AutomationTargetReference, key: (u64, Seq<char>))
    requires
        selected_targets(devices, target).contains(key),
    ensures
        exists|i: int| #[trigger] selected_at(devices, target.device, i) && devices[i].device_id == key.0
            && offered_endpoints(devices[i].endpoints@, target).contains(key.1),
    decreases devices.len(),
{
    let rest = selected_targets(devices.drop_last(), target);
    let last = devices.len() - 1;
    if rest.contains(key) {
        lemma_selected_target_source(devices.drop_last(), target, key);
        let i = choose|i: int| #[trigger] selected_at(devices.drop_last(), target.device, i) && devices.drop_last()[i].device_id
            == key.0 && offered_endpoints(devices.drop_last()[i].endpoints@, target).contains(key.1);
        assert(devices[i] == devices.drop_last()[i]);
        assert(selected_at(devices, target.device, i));
    } else {
        let contributed = device_targets(devices[last], target);
        assert(selects(target.device, devices[last]));
        assert(selected_targets(devices, target) == rest + contributed);
        let w = choose|w: int| 0 <= w < (rest + contributed).len() && (rest + contributed)[w] == key;
        assert(w >= rest.len());
        let e = w - rest.len();
        assert(contributed[e] == key);
        assert(offered_endpoints(devices[last].endpoints@, target)[e] == key.1);
        assert(selected_at(devices, target.device, last));
    }
}

/// Every resolved target names a selected, enrolled device and one of its
/// endpoints that matches the requested endpoint and advertises the requested
/// capability schema.
pub proof fn lemma_resolved_targets_are_offered(
    devices: Seq<SnapshotDevice>,
    target: AutomationTargetReference,
    v: Seq<ResolvedAutomationTarget>,
    k: int,
)
    requires
        resolution_error(devices, target) is None,
        resolves_to(devices, target, v),
        0 <= k < v.len(),
    ensures
        v[k].capability@ == target.capability@,
        exists|i: int, j: int|
            #[trigger] selected_at(devices, target.device, i) && devices[i].enrolled && devices[i].device_id == v[k].device_id
                && 0 <= j < devices[i].endpoints@.len() && devices[i].endpoints@[j].endpoint_id@ == v[k].endpoint_id@
                && #[trigger] endpoint_offers(devices[i].endpoints@[j], target),
{
    broadcast use vstd::seq_lib::group_to_multiset_ensures;
    let keys = target_keys(v);
    let key = target_key(v[k]);
    assert(keys[k] == key);
    assert(keys.contains(key));
    assert(selected_targets(devices, target).to_multiset().count(key) > 0);
    lemma_selected_target_source(devices, target, key);
    let i = choose|i: int| #[trigger] selected_at(devices, target.device, i) && devices[i].device_id == key.0
        && offered_endpoints(devices[i].endpoints@, target).contains(key.1);
    assert(devices[i].enrolled) by {
        if !devices[i].enrolled {
            assert(selected_at(devices, target.device, i) && !devices[i].enrolled);
        }
    }
    lemma_offered_endpoint_exists(devices[i].endpoints@, target, key.1);
    let j = choose|j: int| 0 <= j < devices[i].endpoints@.len() && devices[i].endpoints@[j].endpoint_id@ == key.1
        && #[trigger] endpoint_offers(devices[i].endpoints@[j], target);
    assert(selected_at(devices, target.device, i) && endpoint_offers(devices[i].endpoints@[j], target));
}

} // verus!
