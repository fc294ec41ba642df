//! Versioned Matter-to-HomeMagic capability projection and report ordering.

use vstd::prelude::*;

use crate::matter_controller::{MatterAttributePath, MatterLockState};
use crate::policy::RiskClass;
use crate::ports::str_eq;

verus! {

/// Matter On/Off cluster.
pub const MATTER_ON_OFF_CLUSTER_ID: u32 = 0x0006;
/// Matter Level Control cluster, reserved for a later fixture-backed rule.
pub const MATTER_LEVEL_CONTROL_CLUSTER_ID: u32 = 0x0008;
/// Matter Door Lock cluster.
pub const MATTER_DOOR_LOCK_CLUSTER_ID: u32 = 0x0101;
/// Matter Window Covering cluster, reserved for a later fixture-backed rule.
pub const MATTER_WINDOW_COVERING_CLUSTER_ID: u32 = 0x0102;

pub const ON_OFF_ATTRIBUTE_ID: u32 = 0x0000;
pub const LOCK_STATE_ATTRIBUTE_ID: u32 = 0x0000;
pub const OFF_COMMAND_ID: u32 = 0x0000;
pub const ON_COMMAND_ID: u32 = 0x0001;
pub const LOCK_COMMAND_ID: u32 = 0x0000;
pub const UNLOCK_COMMAND_ID: u32 = 0x0001;
pub const ON_OFF_LIGHT_DEVICE_TYPE: u32 = 0x0100;
pub const DIMMABLE_LIGHT_DEVICE_TYPE: u32 = 0x0101;
pub const DOOR_LOCK_DEVICE_TYPE: u32 = 0x000A;

/// Version of every projection rule.
pub const MATTER_PROJECTION_RULE_VERSION: u16 = 1;

/// One explicit projection rule known to the application.
#[derive(Clone, Copy, Debug, PartialEq, Eq, Structural)]
pub enum MatterProjectionRule {
    /// Applicable On/Off server semantics.
    OnOffV1,
    /// Applicable Door Lock server semantics.
    AccessControlV1,
    /// Declared but disabled until a fixture proves Level Control semantics.
    LevelV1LaterFixture,
    /// Declared but disabled until calibration and motion semantics are proven.
    PositionV1LaterFixture,
}

/// Common schema emitted by an enabled rule.
pub open spec fn rule_schema(rule: MatterProjectionRule) -> Option<Seq<char>> {
    match rule {
        MatterProjectionRule::OnOffV1 => Some("on_off.v1"@),
        MatterProjectionRule::AccessControlV1 => Some("access_control.v1"@),
        _ => None,
    }
}

impl MatterProjectionRule {
    /// Returns the common schema emitted by an enabled rule.
    pub fn capability_schema(self) -> (s: Option<&'static str>)
        ensures
            match s {
                Some(t) => rule_schema(self) == Some(t@),
                None => rule_schema(self) is None,
            },
    {
        match self {
            MatterProjectionRule::OnOffV1 => Some("on_off.v1"),
            MatterProjectionRule::AccessControlV1 => Some("access_control.v1"),
            MatterProjectionRule::LevelV1LaterFixture | MatterProjectionRule::PositionV1LaterFixture => None,
        }
    }

    /// Stable key of the rule inside projection identities.
    pub fn key(self) -> (s: &'static str)
        ensures
            s@ == match self {
                MatterProjectionRule::OnOffV1 => "on_off"@,
                MatterProjectionRule::AccessControlV1 => "access_control"@,
                MatterProjectionRule::LevelV1LaterFixture => "level"@,
                MatterProjectionRule::PositionV1LaterFixture => "position"@,
            },
    {
        match self {
            MatterProjectionRule::OnOffV1 => "on_off",
            MatterProjectionRule::AccessControlV1 => "access_control",
            MatterProjectionRule::LevelV1LaterFixture => "level",
            MatterProjectionRule::PositionV1LaterFixture => "position",
        }
    }
}

/// Descriptor role for namespaced diagnostics.
#[derive(Clone, Copy, Debug, PartialEq, Eq, Structural)]
pub enum MatterClusterRole {
    Server,
    Client,
}

/// One cluster exposed by an endpoint.
#[derive(Clone, Debug)]
pub struct MatterClusterDescriptor {
    pub id: u32,
    pub revision: u16,
    pub feature_map: u32,
    pub attributes: Vec<u32>,
    pub accepted_commands: Vec<u32>,
}

/// One endpoint of a node descriptor.
#[derive(Clone, Debug)]
pub struct MatterEndpointDescriptor {
    pub number: u16,
    pub device_types: Vec<u32>,
    pub server_clusters: Vec<MatterClusterDescriptor>,
    pub client_clusters: Vec<MatterClusterDescriptor>,
}

/// Bounded description of one commissioned node.
#[derive(Clone, Debug)]
pub struct MatterNodeDescriptor {
    pub fabric_id: u64,
    pub node_id: u64,
    pub descriptor_revision: u64,
    pub endpoints: Vec<MatterEndpointDescriptor>,
}

/// Stable projection identity: fabric, node, endpoint, rule, rule version.
#[derive(Clone, Copy, Debug, PartialEq, Eq, Structural)]
pub struct MatterProjectionKey {
    pub fabric_id: u64,
    pub node_id: u64,
    pub endpoint: u16,
    pub rule: MatterProjectionRule,
    pub version: u16,
}

/// One stable common capability projected from a Matter endpoint.
#[derive(Clone, Debug)]
pub struct MatterCapabilityProjection {
    /// Owning integration instance, stable for one fabric.
    pub integration_id: u64,
    /// Stable common device identity.
    pub device_id: u64,
    /// Endpoint number within the device (`matter:{number}`).
    pub endpoint: u16,
    /// Stable projection identity, independent from descriptor revisions.
    pub projection_id: MatterProjectionKey,
    /// Applied rule.
    pub rule: MatterProjectionRule,
    /// Common capability schema.
    pub capability_schema: &'static str,
    /// Risk of the common capability.
    pub risk: RiskClass,
    /// Only report path admitted by this initial scalar rule.
    pub report_path: MatterAttributePath,
    /// Descriptor revision on which command assumptions depend.
    pub projection_revision: u64,
    /// Source cluster revision.
    pub cluster_revision: u16,
    /// Source feature map.
    pub feature_map: u32,
}

/// Read-only cluster metadata that did not become a common capability.
#[derive(Clone, Debug)]
pub struct MatterDiagnosticProjection {
    /// Endpoint number of the cluster.
    pub endpoint: u16,
    /// Cluster identifier.
    pub cluster_id: u32,
    /// Whether the endpoint exposes the cluster as a server or client.
    pub role: MatterClusterRole,
    /// Cluster revision used for future semantic review.
    pub revision: u16,
    /// Feature bits retained as diagnostics only.
    pub feature_map: u32,
    /// Bounded available attributes.
    pub attributes: Vec<u32>,
    /// Bounded accepted commands (diagnostic identifiers, not invocable APIs).
    pub accepted_commands: Vec<u32>,
}

/// Complete bounded projection result for one node.
#[derive(Clone, Debug)]
pub struct MatterNodeProjection {
    pub device_id: u64,
    pub capabilities: Vec<MatterCapabilityProjection>,
    pub diagnostics: Vec<MatterDiagnosticProjection>,
}

/// Whether some device type of the endpoint is eligible.
pub open spec fn has_eligible_type(device_types: Seq<u32>, eligible: Seq<u32>) -> bool {
    exists|i: int| 0 <= i < device_types.len() && eligible.contains(#[trigger] device_types[i])
}

/// Whether a server cluster carries the rule's cluster, attributes, and commands.
pub open spec fn cluster_eligible(c: MatterClusterDescriptor, cluster_id: u32, attributes: Seq<u32>, commands: Seq<u32>) -> bool {
    &&& c.id == cluster_id
    &&& forall|a: int| 0 <= a < attributes.len() ==> c.attributes@.contains(#[trigger] attributes[a])
    &&& forall|a: int| 0 <= a < commands.len() ==> c.accepted_commands@.contains(#[trigger] commands[a])
}

fn contains_u32(values: &Vec<u32>, value: u32) -> (b: bool)
    ensures
        b == values@.contains(value),
{
    let mut i: usize = 0;
    while i < values.len()
        invariant
            i <= values@.len(),
            forall|j: int| 0 <= j < i ==> values@[j] != value,
        decreases values@.len() - i,
    {
        if values[i] == value {
            return true;
        }
        i = i + 1;
    }
    false
}

fn has_device_type(device_types: &Vec<u32>, eligible: &Vec<u32>) -> (b: bool)
    ensures
        b == has_eligible_type(device_types@, eligible@),
{
    let mut i: usize = 0;
    while i < device_types.len()
        invariant
            i <= device_types@.len(),
            forall|j: int| 0 <= j < i ==> !eligible@.contains(#[trigger] device_types@[j]),
        decreases device_types@.len() - i,
    {
        if contains_u32(eligible, device_types[i]) {
            return true;
        }
        i = i + 1;
    }
    false
}

fn contains_all(values: &Vec<u32>, required: &Vec<u32>) -> (b: bool)
    ensures
        b == forall|a: int| 0 <= a < required@.len() ==> values@.contains(#[trigger] required@[a]),
{
    let mut i: usize = 0;
    while i < required.len()
        invariant
            i <= required@.len(),
            forall|a: int| 0 <= a < i ==> values@.contains(#[trigger] required@[a]),
        decreases required@.len() - i,
    {
        if !contains_u32(values, required[i]) {
            return false;
        }
        i = i + 1;
    }
    true
}

/// Index of the first eligible server cluster, if any.
fn eligible_server_cluster(
    endpoint: &MatterEndpointDescriptor,
    cluster_id: u32,
    attributes: &Vec<u32>,
    commands: &Vec<u32>,
) -> (r: Option<usize>)
    ensures
        match r {
            Some(k) => k < endpoint.server_clusters@.len()
                && cluster_eligible(endpoint.server_clusters@[k as int], cluster_id, attributes@, commands@)
                && forall|j: int| 0 <= j < k ==> !cluster_eligible(#[trigger] endpoint.server_clusters@[j], cluster_id, attributes@, commands@),
            None => forall|j: int| 0 <= j < endpoint.server_clusters@.len() ==> !cluster_eligible(
                #[trigger] endpoint.server_clusters@[j],
                cluster_id,
                attributes@,
                commands@,
            ),
        },
{
    let mut i: usize = 0;
    while i < endpoint.server_clusters.len()
        invariant
            i <= endpoint.server_clusters@.len(),
            forall|j: int| 0 <= j < i ==> !cluster_eligible(#[trigger] endpoint.server_clusters@[j], cluster_id, attributes@, commands@),
        decreases endpoint.server_clusters@.len() - i,
    {
        let c = &endpoint.server_clusters[i];
        if c.id == cluster_id && contains_all(&c.attributes, attributes) && contains_all(&c.accepted_commands, commands) {
            return Some(i);
        }
        i = i + 1;
    }
    None
}

/// The capability that `rule` projects from `endpoint`, when eligible.
pub open spec fn rule_projection_applies(rule: MatterProjectionRule, endpoint: MatterEndpointDescriptor) -> bool {
    match rule {
        MatterProjectionRule::OnOffV1 => has_eligible_type(endpoint.device_types@, seq![ON_OFF_LIGHT_DEVICE_TYPE, DIMMABLE_LIGHT_DEVICE_TYPE])
            && exists|j: int| 0 <= j < endpoint.server_clusters@.len() && cluster_eligible(
                #[trigger] endpoint.server_clusters@[j],
                MATTER_ON_OFF_CLUSTER_ID,
                seq![ON_OFF_ATTRIBUTE_ID],
                seq![OFF_COMMAND_ID, ON_COMMAND_ID],
            ),
        MatterProjectionRule::AccessControlV1 => has_eligible_type(endpoint.device_types@, seq![DOOR_LOCK_DEVICE_TYPE])
            && exists|j: int| 0 <= j < endpoint.server_clusters@.len() && cluster_eligible(
                #[trigger] endpoint.server_clusters@[j],
                MATTER_DOOR_LOCK_CLUSTER_ID,
                seq![LOCK_STATE_ATTRIBUTE_ID],
                seq![LOCK_COMMAND_ID, UNLOCK_COMMAND_ID],
            ),
        _ => false,
    }
}

/// Projects one endpoint through one enabled rule.
fn project_rule(
    integration_id: u64,
    device_id: u64,
    node: &MatterNodeDescriptor,
    endpoint: &MatterEndpointDescriptor,
    rule: MatterProjectionRule,
) -> (r: Option<MatterCapabilityProjection>)
    requires
        rule == MatterProjectionRule::OnOffV1 || rule == MatterProjectionRule::AccessControlV1,
    ensures
        r is Some <==> rule_projection_applies(rule, *endpoint),
        r matches Some(p) ==> {
            &&& p.integration_id == integration_id
            &&& p.device_id == device_id
            &&& p.endpoint == endpoint.number
            &&& p.rule == rule
            &&& rule_schema(rule) == Some(p.capability_schema@)
            &&& p.risk == (if rule == MatterProjectionRule::OnOffV1 { RiskClass::Comfort } else { RiskClass::Security })
            &&& p.projection_id == (MatterProjectionKey {
                fabric_id: node.fabric_id,
                node_id: node.node_id,
                endpoint: endpoint.number,
                rule,
                version: MATTER_PROJECTION_RULE_VERSION,
            })
            &&& p.report_path.node_id == node.node_id
            &&& p.report_path.endpoint == endpoint.number
            &&& p.report_path.cluster_id == (if rule == MatterProjectionRule::OnOffV1 { MATTER_ON_OFF_CLUSTER_ID } else { MATTER_DOOR_LOCK_CLUSTER_ID })
            &&& p.report_path.attribute_id == 0
            &&& p.projection_revision == node.descriptor_revision
        },
{
    let on_off = rule == MatterProjectionRule::OnOffV1;
    let mut eligible: Vec<u32> = Vec::new();
    let mut attributes: Vec<u32> = Vec::new();
    let mut commands: Vec<u32> = Vec::new();
    let cluster_id;
    let attribute_id;
    let risk;
    let schema: &'static str;
    if on_off {
        eligible.push(ON_OFF_LIGHT_DEVICE_TYPE);
        eligible.push(DIMMABLE_LIGHT_DEVICE_TYPE);
        attributes.push(ON_OFF_ATTRIBUTE_ID);
        commands.push(OFF_COMMAND_ID);
        commands.push(ON_COMMAND_ID);
        cluster_id = MATTER_ON_OFF_CLUSTER_ID;
        attribute_id = ON_OFF_ATTRIBUTE_ID;
        risk = RiskClass::Comfort;
        schema = "on_off.v1";
    } else {
        eligible.push(DOOR_LOCK_DEVICE_TYPE);
        attributes.push(LOCK_STATE_ATTRIBUTE_ID);
        commands.push(LOCK_COMMAND_ID);
        commands.push(UNLOCK_COMMAND_ID);
        cluster_id = MATTER_DOOR_LOCK_CLUSTER_ID;
        attribute_id = LOCK_STATE_ATTRIBUTE_ID;
        risk = RiskClass::Security;
        schema = "access_control.v1";
    }
    assert(eligible@ =~= (if on_off { seq![ON_OFF_LIGHT_DEVICE_TYPE, DIMMABLE_LIGHT_DEVICE_TYPE] } else { seq![DOOR_LOCK_DEVICE_TYPE] }));
    assert(attributes@ =~= (if on_off { seq![ON_OFF_ATTRIBUTE_ID] } else { seq![LOCK_STATE_ATTRIBUTE_ID] }));
    assert(commands@ =~= (if on_off { seq![OFF_COMMAND_ID, ON_COMMAND_ID] } else { seq![LOCK_COMMAND_ID, UNLOCK_COMMAND_ID] }));
    if !has_device_type(&endpoint.device_types, &eligible) {
        return None;
    }
    let k = match eligible_server_cluster(endpoint, cluster_id, &attributes, &commands) {
        Some(k) => k,
        None => return None,
    };
    let cluster = &endpoint.server_clusters[k];
    Some(MatterCapabilityProjection {
        integration_id,
        device_id,
        endpoint: endpoint.number,
        projection_id: MatterProjectionKey {
            fabric_id: node.fabric_id,
            node_id: node.node_id,
            endpoint: endpoint.number,
            rule,
            version: MATTER_PROJECTION_RULE_VERSION,
        },
        rule,
        capability_schema: schema,
        risk,
        report_path: MatterAttributePath {
            node_id: node.node_id,
            endpoint: endpoint.number,
            cluster_id: cluster.id,
            attribute_id,
        },
        projection_revision: node.descriptor_revision,
        cluster_revision: cluster.revision,
        feature_map: cluster.feature_map,
    })
}

fn copy_u32s(values: &Vec<u32>) -> (r: Vec<u32>)
    ensures
        r@ == values@,
{
    let mut r: Vec<u32> = Vec::new();
    let mut i: usize = 0;
    while i < values.len()
        invariant
            i <= values@.len(),
            r@ == values@.take(i as int),
        decreases values@.len() - i,
    {
        r.push(values[i]);
        i = i + 1;
    }
    assert(values@.take(values@.len() as int) =~= values@);
    r
}

fn diagnostic(endpoint: u16, cluster: &MatterClusterDescriptor, role: MatterClusterRole) -> (d: MatterDiagnosticProjection)
    ensures
        d.endpoint == endpoint,
        d.cluster_id == cluster.id,
        d.role == role,
        d.revision == cluster.revision,
        d.feature_map == cluster.feature_map,
        d.attributes@ == cluster.attributes@,
        d.accepted_commands@ == cluster.accepted_commands@,
{
    MatterDiagnosticProjection {
        endpoint,
        cluster_id: cluster.id,
        role,
        revision: cluster.revision,
        feature_map: cluster.feature_map,
        attributes: copy_u32s(&cluster.attributes),
        accepted_commands: copy_u32s(&cluster.accepted_commands),
    }
}

/// Projects one bounded descriptor through the accepted v1 rules.
///
/// `integration_id` and `device_id` are the identities derived for the node's
/// fabric and node number. Each endpoint yields its On/Off and then its Door
/// Lock capability when eligible; every other server cluster of an endpoint, and
/// every client cluster, is kept as a read-only diagnostic.
pub fn project_matter_node(integration_id: u64, device_id: u64, descriptor: &MatterNodeDescriptor) -> (r: MatterNodeProjection)
    ensures
        r.device_id == device_id,
        forall|i: int| 0 <= i < r.capabilities@.len() ==> {
            let p = #[trigger] r.capabilities@[i];
            &&& p.device_id == device_id
            &&& p.integration_id == integration_id
            &&& p.projection_revision == descriptor.descriptor_revision
            &&& (p.rule == MatterProjectionRule::OnOffV1 || p.rule == MatterProjectionRule::AccessControlV1)
            &&& rule_schema(p.rule) == Some(p.capability_schema@)
        },
        forall|e: int, rule: MatterProjectionRule|
            0 <= e < descriptor.endpoints@.len() && #[trigger] rule_projection_applies(rule, descriptor.endpoints@[e])
                ==> exists|i: int| 0 <= i < r.capabilities@.len() && #[trigger] r.capabilities@[i].rule == rule
                    && r.capabilities@[i].endpoint == descriptor.endpoints@[e].number,
{
    let mut capabilities: Vec<MatterCapabilityProjection> = Vec::new();
    let mut diagnostics: Vec<MatterDiagnosticProjection> = Vec::new();
    let mut e: usize = 0;
    while e < descriptor.endpoints.len()
        invariant
            e <= descriptor.endpoints@.len(),
            forall|i: int| 0 <= i < capabilities@.len() ==> {
                let p = #[trigger] capabilities@[i];
                &&& p.device_id == device_id
                &&& p.integration_id == integration_id
                &&& p.projection_revision == descriptor.descriptor_revision
                &&& (p.rule == MatterProjectionRule::OnOffV1 || p.rule == MatterProjectionRule::AccessControlV1)
                &&& rule_schema(p.rule) == Some(p.capability_schema@)
            },
            forall|k: int, rule: MatterProjectionRule|
                0 <= k < e && #[trigger] rule_projection_applies(rule, descriptor.endpoints@[k])
                    ==> exists|i: int| 0 <= i < capabilities@.len() && #[trigger] capabilities@[i].rule == rule
                        && capabilities@[i].endpoint == descriptor.endpoints@[k].number,
        decreases descriptor.endpoints@.len() - e,
    {
        let endpoint = &descriptor.endpoints[e];
        let mut on_off_cluster = false;
        let mut lock_cluster = false;
        let ghost before = capabilities@;
        if let Some(p) = project_rule(integration_id, device_id, descriptor, endpoint, MatterProjectionRule::OnOffV1) {
            on_off_cluster = true;
            capabilities.push(p);
        }
        let ghost middle = capabilities@;
        if let Some(p) = project_rule(integration_id, device_id, descriptor, endpoint, MatterProjectionRule::AccessControlV1) {
            lock_cluster = true;
            capabilities.push(p);
        }
        proof {
            assert forall|k: int, rule: MatterProjectionRule|
                0 <= k < e + 1 && #[trigger] rule_projection_applies(rule, descriptor.endpoints@[k])
                implies exists|i: int| 0 <= i < capabilities@.len() && #[trigger] capabilities@[i].rule == rule
                    && capabilities@[i].endpoint == descriptor.endpoints@[k].number by {
                if k < e {
                    let i = choose|i: int| 0 <= i < before.len() && #[trigger] before[i].rule == rule
                        && before[i].endpoint == descriptor.endpoints@[k].number;
                    assert(capabilities@[i] == before[i]);
                } else if rule == MatterProjectionRule::OnOffV1 {
                    assert(capabilities@[before.len() as int].rule == rule);
                } else {
                    assert(rule == MatterProjectionRule::AccessControlV1);
                    assert(capabilities@[middle.len() as int].rule == rule);
                }
            }
        }
        let mut c: usize = 0;
        while c < endpoint.server_clusters.len()
            invariant
                c <= endpoint.server_clusters@.len(),
            decreases endpoint.server_clusters@.len() - c,
        {
            let cluster = &endpoint.server_clusters[c];
            let mapped = (on_off_cluster && cluster.id == MATTER_ON_OFF_CLUSTER_ID) || (lock_cluster && cluster.id
                == MATTER_DOOR_LOCK_CLUSTER_ID);
            if !mapped {
                diagnostics.push(diagnostic(endpoint.number, cluster, MatterClusterRole::Server));
            }
            c = c + 1;
        }
        let mut c: usize = 0;
        while c < endpoint.client_clusters.len()
            invariant
                c <= endpoint.client_clusters@.len(),
            decreases endpoint.client_clusters@.len() - c,
        {
            diagnostics.push(diagnostic(endpoint.number, &endpoint.client_clusters[c], MatterClusterRole::Client));
            c = c + 1;
        }
        e = e + 1;
    }
    MatterNodeProjection { device_id, capabilities, diagnostics }
}

impl MatterNodeProjection {
    /// Locates the projection accepting a report path.
    pub fn projection_for(&self, path: MatterAttributePath) -> (r: Option<&MatterCapabilityProjection>)
        ensures
            match r {
                Some(p) => exists|i: int| 0 <= i < self.capabilities@.len() && self.capabilities@[i] == *p
                    && p.report_path == path && forall|j: int| 0 <= j < i ==> #[trigger] self.capabilities@[j].report_path != path,
                None => forall|j: int| 0 <= j < self.capabilities@.len() ==> #[trigger] self.capabilities@[j].report_path != path,
            },
    {
        let mut i: usize = 0;
        while i < self.capabilities.len()
            invariant
                i <= self.capabilities@.len(),
                forall|j: int| 0 <= j < i ==> #[trigger] self.capabilities@[j].report_path != path,
            decreases self.capabilities@.len() - i,
        {
            if self.capabilities[i].report_path == path {
                return Some(&self.capabilities[i]);
            }
            i = i + 1;
        }
        None
    }
}

/// Result of comparing durable projection assumptions with rediscovery.
#[derive(Clone, Copy, Debug, PartialEq, Eq, Structural)]
pub enum MatterProjectionValidity {
    /// Rule inputs are unchanged and commands may use the cached projection.
    Current,
    /// Descriptor, cluster revision, feature map, or support changed.
    Invalidated,
}

/// Whether a rediscovered projection keeps every command-relevant assumption.
pub open spec fn projection_unchanged(candidate: MatterCapabilityProjection, cached: MatterCapabilityProjection) -> bool {
    &&& candidate.report_path == cached.report_path
    &&& candidate.projection_revision == cached.projection_revision
    &&& candidate.cluster_revision == cached.cluster_revision
    &&& candidate.feature_map == cached.feature_map
    &&& candidate.capability_schema@ == cached.capability_schema@
    &&& candidate.risk == cached.risk
}

/// Checks whether a cached projection remains command-safe after rediscovery:
/// the first rediscovered projection with the same identity must keep every assumption.
pub fn projection_validity(cached: &MatterCapabilityProjection, rediscovered: &MatterNodeProjection) -> (v: MatterProjectionValidity)
    ensures
        v == MatterProjectionValidity::Current <==> exists|i: int|
            0 <= i < rediscovered.capabilities@.len() && rediscovered.capabilities@[i].projection_id == cached.projection_id
                && (forall|j: int| 0 <= j < i ==> #[trigger] rediscovered.capabilities@[j].projection_id != cached.projection_id)
                && projection_unchanged(rediscovered.capabilities@[i], *cached),
{
    let mut i: usize = 0;
    while i < rediscovered.capabilities.len()
        invariant
            i <= rediscovered.capabilities@.len(),
            forall|j: int| 0 <= j < i ==> #[trigger] rediscovered.capabilities@[j].projection_id != cached.projection_id,
        decreases rediscovered.capabilities@.len() - i,
    {
        let candidate = &rediscovered.capabilities[i];
        if candidate.projection_id == cached.projection_id {
            let same = candidate.report_path == cached.report_path && candidate.projection_revision
                == cached.projection_revision && candidate.cluster_revision == cached.cluster_revision
                && candidate.feature_map == cached.feature_map && str_eq(candidate.capability_schema,
                cached.capability_schema) && candidate.risk == cached.risk;
            proof {
                if !same {
                    assert forall|k: int|
                        0 <= k < rediscovered.capabilities@.len() && rediscovered.capabilities@[k].projection_id
                            == cached.projection_id && (forall|j: int| 0 <= j < k ==> #[trigger] rediscovered.capabilities@[j].projection_id != cached.projection_id)
                        implies !projection_unchanged(rediscovered.capabilities@[k], *cached) by {
                        if k > i {
                            assert(rediscovered.capabilities@[i as int].projection_id == cached.projection_id);
                        }
                    }
                }
            }
            return if same {
                MatterProjectionValidity::Current
            } else {
                MatterProjectionValidity::Invalidated
            };
        }
        i = i + 1;
    }
    MatterProjectionValidity::Invalidated
}

/// Scalar attribute value delivered by a report.
#[derive(Clone, Copy, Debug, PartialEq, Eq, Structural)]
pub enum MatterAttributeValue {
    Boolean(bool),
    Unsigned(u64),
    Signed(i64),
    Null,
}

/// One attribute report from the controller.
#[derive(Clone, Copy, Debug, PartialEq, Eq, Structural)]
pub struct MatterAttributeReport {
    pub path: MatterAttributePath,
    pub value: MatterAttributeValue,
    pub data_version: Option<u32>,
    pub report_sequence: u64,
    /// Source time in milliseconds since the Unix epoch.
    pub observed_at: i64,
}

/// Common state value of a projected capability.
#[derive(Clone, Copy, Debug, PartialEq, Eq, Structural)]
pub enum MatterStateValue {
    OnOff(bool),
    Lock(MatterLockState),
}

/// Durable trusted report state of one projection.
#[derive(Clone, Copy, Debug, PartialEq, Eq, Structural)]
pub struct MatterReportedState {
    pub value: MatterStateValue,
    pub data_version: Option<u32>,
    pub report_sequence: u64,
    pub observed_at: i64,
    pub received_at: i64,
}

/// JSON scalar of one observed field.
#[derive(Clone, Copy, Debug)]
pub enum ObservedScalar {
    Boolean(bool),
    Text(&'static str),
    Null,
}

/// One observed field of a common capability.
#[derive(Clone, Copy, Debug)]
pub struct ObservedField {
    pub name: &'static str,
    pub value: ObservedScalar,
    pub observed_at: i64,
}

/// How an observation reached the application.
#[derive(Clone, Copy, Debug, PartialEq, Eq, Structural)]
pub enum ObservationSourceKind {
    Notification,
    RefreshFallback,
}

/// Common capability observation derived from a report.
#[derive(Clone, Debug)]
pub struct CapabilityObservation {
    pub device_id: u64,
    pub endpoint: u16,
    pub capability_schema: &'static str,
    pub values: Vec<ObservedField>,
    pub received_at: i64,
    pub source_integration_id: u64,
    pub source_kind: ObservationSourceKind,
    pub source_sequence: Option<u64>,
}

/// Shared common-domain causation.
#[derive(Clone, Debug)]
pub struct CausationMetadata {
    pub correlation_id: u64,
    pub causation_event_id: Option<u64>,
    pub actor: Option<String>,
}

/// Causation retained while converting a protocol report to common observation.
#[derive(Clone, Debug)]
pub struct MatterReportCausation {
    /// Shared common-domain causation, when the report follows known work.
    pub common: Option<CausationMetadata>,
    /// Desired revision that may be confirmed by this report.
    pub desired_revision: Option<u64>,
}

/// Stable reason a report did not move projected state.
#[derive(Clone, Copy, Debug, PartialEq, Eq, Structural)]
pub enum MatterReportRejection {
    TargetMismatch,
    StaleSequence,
    ConflictingDuplicate,
    StaleDataVersion,
    IncompatibleValue,
    InvalidTime,
}

/// Accepted, duplicate, or rejected report outcome.
#[derive(Clone, Debug)]
pub enum MatterReportDecision {
    /// Report advanced trusted state.
    Applied { reported: MatterReportedState, observation: CapabilityObservation, causation: MatterReportCausation },
    /// The report was already applied.
    Duplicate,
    /// Report cannot safely move state forward.
    Rejected(MatterReportRejection),
}

/// Door Lock state encoded by the `LockState` attribute.
pub open spec fn lock_state_of(raw: u64) -> MatterLockState {
    if raw == 1 {
        MatterLockState::NotFullyLocked
    } else if raw == 2 {
        MatterLockState::Unlocked
    } else if raw == 3 {
        MatterLockState::Locked
    } else {
        MatterLockState::Unknown
    }
}

/// Common state value a rule derives from a report value.
pub open spec fn mapped_value(rule: MatterProjectionRule, value: MatterAttributeValue) -> Option<MatterStateValue> {
    match (rule, value) {
        (MatterProjectionRule::OnOffV1, MatterAttributeValue::Boolean(on)) => Some(MatterStateValue::OnOff(on)),
        (MatterProjectionRule::AccessControlV1, MatterAttributeValue::Unsigned(raw)) => Some(MatterStateValue::Lock(lock_state_of(raw))),
        _ => None,
    }
}

/// Data-version ordering: equal versions must carry equal values, and a changed
/// version must move forward within half of the 32-bit serial space.
pub open spec fn data_version_moves_forward(current: MatterReportedState, report: MatterAttributeReport, next: MatterStateValue) -> bool {
    match (current.data_version, report.data_version) {
        (Some(previous), Some(n)) => if previous == n {
            current.value == next
        } else {
            (if n >= previous { n - previous } else { n + 0x1_0000_0000 - previous }) < 0x8000_0000
        },
        _ => true,
    }
}

/// Why a report is rejected, or `None` when it is applied or a duplicate.
pub open spec fn report_rejection(
    projection: MatterCapabilityProjection,
    report: MatterAttributeReport,
    received_at: i64,
    current: Option<MatterReportedState>,
) -> Option<MatterReportRejection> {
    if report.path != projection.report_path {
        Some(MatterReportRejection::TargetMismatch)
    } else if mapped_value(projection.rule, report.value) is None {
        Some(MatterReportRejection::IncompatibleValue)
    } else if report.observed_at > received_at {
        Some(MatterReportRejection::InvalidTime)
    } else {
        match current {
            None => None,
            Some(c) => {
                let next = mapped_value(projection.rule, report.value)->0;
                if report.report_sequence < c.report_sequence {
                    Some(MatterReportRejection::StaleSequence)
                } else if report.report_sequence == c.report_sequence {
                    if c.value == next && c.data_version == report.data_version {
                        None
                    } else {
                        Some(MatterReportRejection::ConflictingDuplicate)
                    }
                } else if !data_version_moves_forward(c, report, next) {
                    Some(MatterReportRejection::StaleDataVersion)
                } else {
                    None
                }
            },
        }
    }
}

/// Whether an accepted report merely repeats the current state.
pub open spec fn report_is_duplicate(report: MatterAttributeReport, current: Option<MatterReportedState>) -> bool {
    current matches Some(c) && report.report_sequence == c.report_sequence
}

/// The reported state an applied report establishes.
pub open spec fn applied_state(projection: MatterCapabilityProjection, report: MatterAttributeReport, received_at: i64) -> MatterReportedState {
    MatterReportedState {
        value: mapped_value(projection.rule, report.value)->0,
        data_version: report.data_version,
        report_sequence: report.report_sequence,
        observed_at: report.observed_at,
        received_at,
    }
}

fn data_version_advances(current: &MatterReportedState, report: &MatterAttributeReport, next_value: MatterStateValue) -> (b: bool)
    ensures
        b == data_version_moves_forward(*current, *report, next_value),
{
    match (current.data_version, report.data_version) {
        (Some(previous), Some(next)) => {
            if previous == next {
                current.value == next_value
            } else {
                let diff = next.wrapping_sub(previous);
                assert(diff == (if next >= previous { next - previous } else { next + 0x1_0000_0000 - previous })) by (bit_vector)
                    requires
                        diff == next.wrapping_sub(previous),
                ;
                diff < 0x8000_0000
            }
        },
        _ => true,
    }
}

fn lock_state_from_raw(raw: u64) -> (s: MatterLockState)
    ensures
        raw == 1 ==> s == MatterLockState::NotFullyLocked,
        raw == 2 ==> s == MatterLockState::Unlocked,
        raw == 3 ==> s == MatterLockState::Locked,
        raw != 1 && raw != 2 && raw != 3 ==> s == MatterLockState::Unknown,
        s == lock_state_of(raw),
{
    if raw == 1 {
        MatterLockState::NotFullyLocked
    } else if raw == 2 {
        MatterLockState::Unlocked
    } else if raw == 3 {
        MatterLockState::Locked
    } else {
        MatterLockState::Unknown
    }
}

/// How a report is judged against the projection and the current reported
/// state: a report for another attribute path is a target mismatch; one
/// observed after it was received has an invalid time; a sequence behind the
/// current one is stale; the current sequence again is a duplicate when it
/// carries the same value and data version and a conflict otherwise; a later
/// sequence is applied unless its data version moves backwards (by at most
/// half the 32-bit serial space); with no current state a well-timed report
/// for the path is applied.
pub proof fn lemma_report_ordering(
    projection: MatterCapabilityProjection,
    report: MatterAttributeReport,
    received_at: i64,
    current: Option<MatterReportedState>,
)
    ensures
        report.path != projection.report_path ==> report_rejection(projection, report, received_at, current) == Some(
            MatterReportRejection::TargetMismatch,
        ),
        report.path == projection.report_path && mapped_value(projection.rule, report.value) is Some ==> {
            let next = mapped_value(projection.rule, report.value)->0;
            &&& report.observed_at > received_at ==> report_rejection(projection, report, received_at, current) == Some(
                MatterReportRejection::InvalidTime,
            )
            &&& report.observed_at <= received_at ==> match current {
                None => report_rejection(projection, report, received_at, current) is None && !report_is_duplicate(
                    report,
                    current,
                ),
                Some(c) => {
                    &&& report.report_sequence < c.report_sequence ==> report_rejection(
                        projection,
                        report,
                        received_at,
                        current,
                    ) == Some(MatterReportRejection::StaleSequence)
                    &&& report.report_sequence == c.report_sequence ==> (if c.value == next && c.data_version
                        == report.data_version {
                        report_rejection(projection, report, received_at, current) is None && report_is_duplicate(
                            report,
                            current,
                        )
                    } else {
                        report_rejection(projection, report, received_at, current) == Some(
                            MatterReportRejection::ConflictingDuplicate,
                        )
                    })
                    &&& report.report_sequence > c.report_sequence ==> !report_is_duplicate(report, current)
                    &&& report.report_sequence > c.report_sequence && (c.data_version is None || report.data_version is None)
                        ==> report_rejection(projection, report, received_at, current) is None
                    &&& report.report_sequence > c.report_sequence && c.data_version is Some && report.data_version is Some
                        && report.data_version->0 < c.data_version->0 && c.data_version->0 - report.data_version->0
                        <= 0x8000_0000 ==> report_rejection(
                        projection,
                        report,
                        received_at,
                        current,
                    ) == Some(MatterReportRejection::StaleDataVersion)
                    &&& report.report_sequence > c.report_sequence && c.data_version is Some && report.data_version is Some
                        && report.data_version->0 > c.data_version->0 && report.data_version->0 - c.data_version->0
                        < 0x8000_0000 ==> report_rejection(
                        projection,
                        report,
                        received_at,
                        current,
                    ) is None
                },
            }
        },
{
}

/// A door lock's LockState attribute projects as the Door Lock cluster defines
/// it: 1 is not fully locked, 2 unlocked, 3 locked, and any other value
/// unknown. The published `locked` field is true exactly for 3 and false
/// exactly for 2, and the published `state` names the lock state.
pub proof fn lemma_door_lock_projection(raw: u64, observed_at: i64)
    ensures
        raw == 1 ==> mapped_value(MatterProjectionRule::AccessControlV1, MatterAttributeValue::Unsigned(raw)) == Some(
            MatterStateValue::Lock(MatterLockState::NotFullyLocked),
        ),
        raw == 2 ==> mapped_value(MatterProjectionRule::AccessControlV1, MatterAttributeValue::Unsigned(raw)) == Some(
            MatterStateValue::Lock(MatterLockState::Unlocked),
        ),
        raw == 3 ==> mapped_value(MatterProjectionRule::AccessControlV1, MatterAttributeValue::Unsigned(raw)) == Some(
            MatterStateValue::Lock(MatterLockState::Locked),
        ),
        raw != 1 && raw != 2 && raw != 3 ==> mapped_value(
            MatterProjectionRule::AccessControlV1,
            MatterAttributeValue::Unsigned(raw),
        ) == Some(MatterStateValue::Lock(MatterLockState::Unknown)),
        ({
            let fields = observed_fields(
                mapped_value(MatterProjectionRule::AccessControlV1, MatterAttributeValue::Unsigned(raw))->0,
                observed_at,
            );
            &&& fields.len() == 2
            &&& fields[0].0 == "locked"@
            &&& (fields[0].1 == ObservedScalar::Boolean(true) <==> raw == 3)
            &&& (fields[0].1 == ObservedScalar::Boolean(false) <==> raw == 2)
            &&& fields[1].0 == "state"@
            &&& raw == 3 ==> fields[1].1 == ObservedScalar::Text("locked")
            &&& raw == 2 ==> fields[1].1 == ObservedScalar::Text("unlocked")
        }),
{
}

/// An on/off report projects as its boolean, published as the `on` field; no
/// other rule and value pairing projects at all.
pub proof fn lemma_on_off_projection(on: bool, raw: u64, observed_at: i64)
    ensures
        mapped_value(MatterProjectionRule::OnOffV1, MatterAttributeValue::Boolean(on)) == Some(MatterStateValue::OnOff(on)),
        observed_fields(MatterStateValue::OnOff(on), observed_at) == seq![("on"@, ObservedScalar::Boolean(on))],
        mapped_value(MatterProjectionRule::OnOffV1, MatterAttributeValue::Unsigned(raw)) is None,
        mapped_value(MatterProjectionRule::AccessControlV1, MatterAttributeValue::Boolean(on)) is None,
{
}

/// Observed fields published for a common state value.
pub open spec fn observed_fields(value: MatterStateValue, observed_at: i64) -> Seq<(Seq<char>, ObservedScalar)> {
    match value {
        MatterStateValue::OnOff(on) => seq![("on"@, ObservedScalar::Boolean(on))],
        MatterStateValue::Lock(state) => seq![
            ("locked"@, match state {
                MatterLockState::Locked => ObservedScalar::Boolean(true),
                MatterLockState::Unlocked => ObservedScalar::Boolean(false),
                _ => ObservedScalar::Null,
            }),
            ("state"@, ObservedScalar::Text(match state {
                MatterLockState::Locked => "locked",
                MatterLockState::Unlocked => "unlocked",
                MatterLockState::NotFullyLocked => "not_fully_locked",
                MatterLockState::Unknown => "unknown",
            })),
        ],
    }
}

/// The name and value of each observed field, in name order.
pub open spec fn field_view(values: Seq<ObservedField>) -> Seq<(Seq<char>, ObservedScalar)> {
    values.map_values(|f: ObservedField| (f.name@, f.value))
}

fn map_report_value(rule: MatterProjectionRule, value: MatterAttributeValue, observed_at: i64) -> (r: Option<(MatterStateValue, Vec<ObservedField>)>)
    ensures
        match r {
            Some((v, fields)) => mapped_value(rule, value) == Some(v) && field_view(fields@) == observed_fields(v, observed_at)
                && forall|i: int| 0 <= i < fields@.len() ==> #[trigger] fields@[i].observed_at == observed_at,
            None => mapped_value(rule, value) is None,
        },
{
    match (rule, value) {
        (MatterProjectionRule::OnOffV1, MatterAttributeValue::Boolean(on)) => {
            let mut fields: Vec<ObservedField> = Vec::new();
            fields.push(ObservedField { name: "on", value: ObservedScalar::Boolean(on), observed_at });
            assert(field_view(fields@) =~= observed_fields(MatterStateValue::OnOff(on), observed_at));
            Some((MatterStateValue::OnOff(on), fields))
        },
        (MatterProjectionRule::AccessControlV1, MatterAttributeValue::Unsigned(raw)) => {
            let state = lock_state_from_raw(raw);
            let locked = match state {
                MatterLockState::Locked => ObservedScalar::Boolean(true),
                MatterLockState::Unlocked => ObservedScalar::Boolean(false),
                _ => ObservedScalar::Null,
            };
            let text = match state {
                MatterLockState::Locked => "locked",
                MatterLockState::Unlocked => "unlocked",
                MatterLockState::NotFullyLocked => "not_fully_locked",
                MatterLockState::Unknown => "unknown",
            };
            let mut fields: Vec<ObservedField> = Vec::new();
            fields.push(ObservedField { name: "locked", value: locked, observed_at });
            fields.push(ObservedField { name: "state", value: ObservedScalar::Text(text), observed_at });
            assert(field_view(fields@) =~= observed_fields(MatterStateValue::Lock(state), observed_at));
            Some((MatterStateValue::Lock(state), fields))
        },
        _ => None,
    }
}

/// Normalizes one scalar report with durable ordering and deduplication.
pub fn normalize_matter_report(
    projection: &MatterCapabilityProjection,
    report: &MatterAttributeReport,
    received_at: i64,
    current: Option<&MatterReportedState>,
    source_kind: ObservationSourceKind,
    causation: MatterReportCausation,
) -> (d: MatterReportDecision)
    ensures
        ({
            let cur = match current { Some(c) => Some(*c), None => None };
            match report_rejection(*projection, *report, received_at, cur) {
                Some(reason) => d == MatterReportDecision::Rejected(reason),
                None => if report_is_duplicate(*report, cur) {
                    d == MatterReportDecision::Duplicate
                } else {
                    d matches MatterReportDecision::Applied { reported, observation, causation: c } && {
                        &&& reported == applied_state(*projection, *report, received_at)
                        &&& observation.device_id == projection.device_id
                        &&& observation.endpoint == projection.endpoint
                        &&& observation.capability_schema == projection.capability_schema
                        &&& field_view(observation.values@) == observed_fields(reported.value, report.observed_at)
                        &&& observation.received_at == received_at
                        &&& observation.source_integration_id == projection.integration_id
                        &&& observation.source_kind == source_kind
                        &&& observation.source_sequence == Some(report.report_sequence)
                        &&& c == causation
                    }
                },
            }
        }),
{
    if report.path != projection.report_path {
        return MatterReportDecision::Rejected(MatterReportRejection::TargetMismatch);
    }
    let (state_value, values) = match map_report_value(projection.rule, report.value, report.observed_at) {
        Some(mapped) => mapped,
        None => return MatterReportDecision::Rejected(MatterReportRejection::IncompatibleValue),
    };
    if report.observed_at > received_at {
        return MatterReportDecision::Rejected(MatterReportRejection::InvalidTime);
    }
    if let Some(current) = current {
        if report.report_sequence < current.report_sequence {
            return MatterReportDecision::Rejected(MatterReportRejection::StaleSequence);
        }
        if report.report_sequence == current.report_sequence {
            return if current.value == state_value && current.data_version == report.data_version {
                MatterReportDecision::Duplicate
            } else {
                MatterReportDecision::Rejected(MatterReportRejection::ConflictingDuplicate)
            };
        }
        if !data_version_advances(current, report, state_value) {
            return MatterReportDecision::Rejected(MatterReportRejection::StaleDataVersion);
        }
    }
    let reported = MatterReportedState {
        value: state_value,
        data_version: report.data_version,
        report_sequence: report.report_sequence,
        observed_at: report.observed_at,
        received_at,
    };
    MatterReportDecision::Applied {
        reported,
        observation: CapabilityObservation {
            device_id: projection.device_id,
            endpoint: projection.endpoint,
            capability_schema: projection.capability_schema,
            values,
            received_at,
            source_integration_id: projection.integration_id,
            source_kind,
            source_sequence: Some(report.report_sequence),
        },
        causation,
    }
}

/// Replaying an applied report against the state it established is a duplicate,
/// never a second application.
pub proof fn lemma_report_replay_is_duplicate(
    projection: MatterCapabilityProjection,
    report: MatterAttributeReport,
    received_at: i64,
    replay_received_at: i64,
    current: Option<MatterReportedState>,
)
    requires
        report_rejection(projection, report, received_at, current) is None,
        !report_is_duplicate(report, current),
        report.observed_at <= replay_received_at,
    ensures
        report_rejection(projection, report, replay_received_at, Some(applied_state(projection, report, received_at))) is None,
        report_is_duplicate(report, Some(applied_state(projection, report, received_at))),
{
}

/// An applied report strictly advances the report sequence, and a report older
/// than the durable state is always rejected.
pub proof fn lemma_report_sequence_monotonic(
    projection: MatterCapabilityProjection,
    report: MatterAttributeReport,
    received_at: i64,
    current: MatterReportedState,
)
    ensures
        report_rejection(projection, report, received_at, Some(current)) is None && !report_is_duplicate(report, Some(current))
            ==> applied_state(projection, report, received_at).report_sequence > current.report_sequence,
        report.report_sequence < current.report_sequence ==> report_rejection(projection, report, received_at, Some(current)) is Some,
{
}

/// Freshness of projected state.
#[derive(Clone, Copy, Debug, PartialEq, Eq, Structural)]
pub enum MatterStateFreshness {
    Unknown,
    Fresh,
    Stale,
}

/// Relation between desired and reported state.
#[derive(Clone, Copy, Debug, PartialEq, Eq, Structural)]
pub enum MatterConvergence {
    NoDesiredState,
    Pending,
    Confirmed,
    Diverged,
}

/// Why projected state is currently uncertain.
#[derive(Clone, Copy, Debug, PartialEq, Eq, Structural)]
pub enum MatterStateUncertainty {
    ReportGap,
    ReadFailed,
}

/// Latest desired value and its monotonic revision.
#[derive(Clone, Copy, Debug, PartialEq, Eq, Structural)]
pub struct MatterDesiredState {
    pub value: MatterStateValue,
    pub revision: u64,
}

/// Desired, reported, and confirmed state of one projection.
#[derive(Clone, Copy, Debug, PartialEq, Eq, Structural)]
pub struct MatterProjectedState {
    pub projection_id: MatterProjectionKey,
    pub desired: Option<MatterDesiredState>,
    pub reported: Option<MatterReportedState>,
    pub confirmed_revision: Option<u64>,
    pub freshness: MatterStateFreshness,
    pub convergence: MatterConvergence,
    pub uncertainty: Option<MatterStateUncertainty>,
}

/// First durable projection row with explicit unknown freshness.
#[derive(Clone, Debug)]
pub struct StoredMatterProjection {
    pub installation_id: u64,
    pub fabric_id: u64,
    pub node_id: u64,
    pub endpoint_number: u16,
    pub projection_id: MatterProjectionKey,
    pub device_id: u64,
    pub endpoint: u16,
    pub capability_schema: &'static str,
    pub projection_revision: u64,
    pub state: MatterProjectedState,
    pub revision: u64,
    pub updated_at: i64,
}

/// Creates the first durable projection row with explicit unknown freshness.
pub fn initial_stored_matter_projection(
    installation_id: u64,
    fabric_id: u64,
    projection: &MatterCapabilityProjection,
    now: i64,
) -> (r: StoredMatterProjection)
    ensures
        r.installation_id == installation_id,
        r.fabric_id == fabric_id,
        r.node_id == projection.report_path.node_id,
        r.endpoint_number == projection.report_path.endpoint,
        r.projection_id == projection.projection_id,
        r.device_id == projection.device_id,
        r.endpoint == projection.endpoint,
        r.capability_schema == projection.capability_schema,
        r.projection_revision == projection.projection_revision,
        r.state == (MatterProjectedState {
            projection_id: projection.projection_id,
            desired: None,
            reported: None,
            confirmed_revision: None,
            freshness: MatterStateFreshness::Unknown,
            convergence: MatterConvergence::NoDesiredState,
            uncertainty: None,
        }),
        r.revision == 1,
        r.updated_at == now,
{
    StoredMatterProjection {
        installation_id,
        fabric_id,
        node_id: projection.report_path.node_id,
        endpoint_number: projection.report_path.endpoint,
        projection_id: projection.projection_id,
        device_id: projection.device_id,
        endpoint: projection.endpoint,
        capability_schema: projection.capability_schema,
        projection_revision: projection.projection_revision,
        state: MatterProjectedState {
            projection_id: projection.projection_id,
            desired: None,
            reported: None,
            confirmed_revision: None,
            freshness: MatterStateFreshness::Unknown,
            convergence: MatterConvergence::NoDesiredState,
            uncertainty: None,
        },
        revision: 1,
        updated_at: now,
    }
}

/// Creates explicit stale state immediately after subscription or descriptor loss;
/// a confirmed desired state falls back to pending.
pub fn mark_matter_projection_stale(state: &MatterProjectedState, uncertainty: MatterStateUncertainty) -> (r: MatterProjectedState)
    ensures
        r == (MatterProjectedState {
            freshness: MatterStateFreshness::Stale,
            convergence: if state.convergence == MatterConvergence::Confirmed && state.desired is Some {
                MatterConvergence::Pending
            } else {
                state.convergence
            },
            uncertainty: Some(uncertainty),
            ..*state
        }),
{
    let convergence = if state.convergence == MatterConvergence::Confirmed && state.desired.is_some() {
        MatterConvergence::Pending
    } else {
        state.convergence
    };
    MatterProjectedState { freshness: MatterStateFreshness::Stale, convergence, uncertainty: Some(uncertainty), ..*state }
}

/// Confirmed revision and convergence after an accepted report.
pub open spec fn convergence_after_report(
    state: MatterProjectedState,
    reported: MatterReportedState,
    desired_revision: Option<u64>,
) -> (Option<u64>, MatterConvergence) {
    match state.desired {
        None => (None, MatterConvergence::NoDesiredState),
        Some(desired) => if desired.value == reported.value && desired_revision == Some(desired.revision) {
            (Some(desired.revision), MatterConvergence::Confirmed)
        } else if desired.value == reported.value {
            (state.confirmed_revision, MatterConvergence::Pending)
        } else {
            (state.confirmed_revision, MatterConvergence::Diverged)
        },
    }
}

/// Advances durable projected state after an accepted report.
///
/// Confirmation requires both a matching value and the exact desired revision
/// retained as report causation.
pub fn advance_matter_projected_state(
    state: &MatterProjectedState,
    reported: MatterReportedState,
    causation: &MatterReportCausation,
) -> (r: MatterProjectedState)
    ensures
        ({
            let (confirmed, convergence) = convergence_after_report(*state, reported, causation.desired_revision);
            r == (MatterProjectedState {
                projection_id: state.projection_id,
                desired: state.desired,
                reported: Some(reported),
                confirmed_revision: confirmed,
                freshness: MatterStateFreshness::Fresh,
                convergence,
                uncertainty: None,
            })
        }),
{
    let (confirmed_revision, convergence) = match state.desired {
        None => (None, MatterConvergence::NoDesiredState),
        Some(desired) => {
            if desired.value == reported.value && causation.desired_revision == Some(desired.revision) {
                (Some(desired.revision), MatterConvergence::Confirmed)
            } else if desired.value == reported.value {
                (state.confirmed_revision, MatterConvergence::Pending)
            } else {
                (state.confirmed_revision, MatterConvergence::Diverged)
            }
        },
    };
    MatterProjectedState {
        projection_id: state.projection_id,
        desired: state.desired,
        reported: Some(reported),
        confirmed_revision,
        freshness: MatterStateFreshness::Fresh,
        convergence,
        uncertainty: None,
    }
}

/// Replaces the latest desired revision while preserving reported evidence.
pub fn advance_matter_desired_state(state: &MatterProjectedState, desired: MatterDesiredState) -> (r: MatterProjectedState)
    ensures
        r == (MatterProjectedState { desired: Some(desired), convergence: MatterConvergence::Pending, ..*state }),
{
    MatterProjectedState { desired: Some(desired), convergence: MatterConvergence::Pending, ..*state }
}

/// A report confirms a desired state only when it carries that exact desired
/// revision as causation and reports the desired value; a stale mark never confirms.
pub proof fn lemma_confirmation_requires_causal_binding(
    state: MatterProjectedState,
    reported: MatterReportedState,
    desired_revision: Option<u64>,
    uncertainty: MatterStateUncertainty,
)
    ensures
        convergence_after_report(state, reported, desired_revision).1 == MatterConvergence::Confirmed ==> {
            &&& state.desired matches Some(d)
            &&& d.value == reported.value
            &&& desired_revision == Some(d.revision)
            &&& convergence_after_report(state, reported, desired_revision).0 == Some(d.revision)
        },
        state.convergence != MatterConvergence::Confirmed || state.desired is Some ==> (if state.convergence == MatterConvergence::Confirmed && state.desired is Some {
            MatterConvergence::Pending
        } else {
            state.convergence
        }) != MatterConvergence::Confirmed,
{
}

} // verus!
