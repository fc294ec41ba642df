//! Secret-free summaries and details of durable Matter nodes, checked for
//! coherent relations between a node and its projections.

use vstd::prelude::*;

use crate::matter_subscription::StoredMatterSubscriptionState;

verus! {

/// Largest page of a node inventory listing.
pub const MAX_NODE_INVENTORY_PAGE: usize = 256;

/// Failure at the node inventory boundary.
#[derive(Clone, Copy, Debug, PartialEq, Eq, Structural)]
pub enum MatterNodeInventoryError {
    /// The requested page is outside `1..=256`.
    InvalidPageLimit,
    /// Durable node relations are inconsistent.
    InvalidState,
}

/// One durable node.
#[derive(Clone, Debug)]
pub struct InventoryNode {
    pub installation_id: u64,
    pub device_id: u64,
    pub fabric_id: u64,
    pub node_id: u64,
    pub descriptor_revision: u64,
    /// Optimistic row revision.
    pub revision: u64,
    pub updated_at: i64,
}

/// One durable endpoint capability projection of a node.
#[derive(Clone, Debug)]
pub struct InventoryProjection {
    pub projection_id: u64,
    pub installation_id: u64,
    pub fabric_id: u64,
    pub node_id: u64,
    pub device_id: u64,
    pub endpoint_id: String,
    pub capability_schema: String,
    pub projection_revision: u64,
    pub revision: u64,
    pub updated_at: i64,
}

/// The durable subscription of a node.
#[derive(Clone, Copy, Debug)]
pub struct InventorySubscription {
    pub subscription_id: u64,
    pub state: StoredMatterSubscriptionState,
    pub report_sequence: u64,
    pub stale_after: i64,
    pub revision: u64,
    pub updated_at: i64,
}

/// A node with its projections, subscription and commissioning result.
#[derive(Clone, Debug)]
pub struct MatterNodeInventoryRecord {
    pub node: InventoryNode,
    pub projections: Vec<InventoryProjection>,
    pub subscription: Option<InventorySubscription>,
    /// Operation that commissioned the node, when recorded.
    pub commissioning_operation_id: Option<u64>,
}

/// A secret-free summary of one node.
#[derive(Clone, Debug)]
pub struct MatterNodeSummary {
    pub fabric_id: u64,
    pub node_id: u64,
    pub device_id: u64,
    pub descriptor_revision: u64,
    pub revision: u64,
    pub projection_ids: Vec<u64>,
    pub subscription_id: Option<u64>,
    pub commissioning_operation_id: Option<u64>,
    pub updated_at: i64,
}

/// A projection's metadata without its state.
#[derive(Clone, Debug)]
pub struct MatterNodeProjectionMetadata {
    pub projection_id: u64,
    pub endpoint_id: String,
    pub capability_schema: String,
    pub projection_revision: u64,
    pub revision: u64,
    pub updated_at: i64,
}

/// A node's summary with its projections' and subscription's metadata.
#[derive(Clone, Debug)]
pub struct MatterNodeDetail {
    pub summary: MatterNodeSummary,
    pub projections: Vec<MatterNodeProjectionMetadata>,
    pub subscription: Option<InventorySubscription>,
}

/// A listing page must hold between one and 256 nodes.
pub fn inventory_page_limit(limit: usize) -> (r: Result<usize, MatterNodeInventoryError>)
    ensures
        r == (if limit == 0 || limit > MAX_NODE_INVENTORY_PAGE {
            Err(MatterNodeInventoryError::InvalidPageLimit)
        } else {
            Ok::<usize, MatterNodeInventoryError>(limit)
        }),
{
    if limit == 0 || limit > MAX_NODE_INVENTORY_PAGE {
        Err(MatterNodeInventoryError::InvalidPageLimit)
    } else {
        Ok(limit)
    }
}

/// Whether a projection belongs to the node: same installation, fabric, node and device.
pub open spec fn projection_coherent(node: InventoryNode, p: InventoryProjection) -> bool {
    &&& p.installation_id == node.installation_id
    &&& p.fabric_id == node.fabric_id
    &&& p.node_id == node.node_id
    &&& p.device_id == node.device_id
}

/// Whether every projection of the record belongs to its node.
pub open spec fn record_coherent(record: MatterNodeInventoryRecord) -> bool {
    forall|i: int| 0 <= i < record.projections@.len() ==> #[trigger] projection_coherent(record.node, record.projections@[i])
}

/// Whether `s` summarizes the record.
pub open spec fn summarizes(s: MatterNodeSummary, record: MatterNodeInventoryRecord) -> bool {
    &&& s.fabric_id == record.node.fabric_id
    &&& s.node_id == record.node.node_id
    &&& s.device_id == record.node.device_id
    &&& s.descriptor_revision == record.node.descriptor_revision
    &&& s.revision == record.node.revision
    &&& s.projection_ids@ == record.projections@.map_values(|p: InventoryProjection| p.projection_id)
    &&& s.subscription_id == match record.subscription {
        Some(sub) => Some(sub.subscription_id),
        None => None,
    }
    &&& s.commissioning_operation_id == record.commissioning_operation_id
    &&& s.updated_at == record.node.updated_at
}

/// Summarizes a node; a projection of another installation, fabric, node or
/// device makes the record inconsistent.
pub fn summary(record: &MatterNodeInventoryRecord) -> (r: Result<MatterNodeSummary, MatterNodeInventoryError>)
    ensures
        !record_coherent(*record) ==> r == Err::<MatterNodeSummary, MatterNodeInventoryError>(
            MatterNodeInventoryError::InvalidState,
        ),
        record_coherent(*record) ==> (r matches Ok(s) && summarizes(s, *record)),
{
    let node = &record.node;
    let mut ids: Vec<u64> = Vec::new();
    let mut i: usize = 0;
    while i < record.projections.len()
        invariant
            *node == record.node,
            i <= record.projections@.len(),
            ids@ == record.projections@.take(i as int).map_values(|p: InventoryProjection| p.projection_id),
            forall|j: int| 0 <= j < i ==> #[trigger] projection_coherent(record.node, record.projections@[j]),
        decreases record.projections@.len() - i,
    {
        let p = &record.projections[i];
        assert(*p == record.projections@[i as int]);
        if !(p.installation_id == node.installation_id && p.fabric_id == node.fabric_id && p.node_id == node.node_id
            && p.device_id == node.device_id) {
            assert(!projection_coherent(record.node, record.projections@[i as int]));
            return Err(MatterNodeInventoryError::InvalidState);
        }
        ids.push(p.projection_id);
        assert(record.projections@.take(i + 1).map_values(|p: InventoryProjection| p.projection_id) =~= ids@);
        i = i + 1;
    }
    assert(record.projections@.take(record.projections@.len() as int) =~= record.projections@);
    Ok(
        MatterNodeSummary {
            fabric_id: node.fabric_id,
            node_id: node.node_id,
            device_id: node.device_id,
            descriptor_revision: node.descriptor_revision,
            revision: node.revision,
            projection_ids: ids,
            subscription_id: match &record.subscription {
                Some(sub) => Some(sub.subscription_id),
                None => None,
            },
            commissioning_operation_id: record.commissioning_operation_id,
            updated_at: node.updated_at,
        },
    )
}

/// Whether `m` is the metadata of projection `p`.
pub open spec fn describes(m: MatterNodeProjectionMetadata, p: InventoryProjection) -> bool {
    &&& m.projection_id == p.projection_id
    &&& m.endpoint_id@ == p.endpoint_id@
    &&& m.capability_schema@ == p.capability_schema@
    &&& m.projection_revision == p.projection_revision
    &&& m.revision == p.revision
    &&& m.updated_at == p.updated_at
}

/// Details a node: its summary, its projections' metadata in order, and its
/// subscription's metadata.
pub fn detail(record: &MatterNodeInventoryRecord) -> (r: Result<MatterNodeDetail, MatterNodeInventoryError>)
    ensures
        !record_coherent(*record) ==> r == Err::<MatterNodeDetail, MatterNodeInventoryError>(
            MatterNodeInventoryError::InvalidState,
        ),
        record_coherent(*record) ==> (r matches Ok(d) && summarizes(d.summary, *record) && d.projections@.len()
            == record.projections@.len() && (forall|i: int|
            0 <= i < record.projections@.len() ==> #[trigger] describes(d.projections@[i], record.projections@[i]))
            && d.subscription == record.subscription),
{
    let summary = match summary(record) {
        Ok(s) => s,
        Err(e) => {
            return Err(e);
        },
    };
    let mut projections: Vec<MatterNodeProjectionMetadata> = Vec::new();
    let mut i: usize = 0;
    while i < record.projections.len()
        invariant
            i <= record.projections@.len(),
            projections@.len() == i,
            forall|j: int| 0 <= j < i ==> #[trigger] describes(projections@[j], record.projections@[j]),
        decreases record.projections@.len() - i,
    {
        let p = &record.projections[i];
        projections.push(
            MatterNodeProjectionMetadata {
                projection_id: p.projection_id,
                endpoint_id: p.endpoint_id.clone(),
                capability_schema: p.capability_schema.clone(),
                projection_revision: p.projection_revision,
                revision: p.revision,
                updated_at: p.updated_at,
            },
        );
        i = i + 1;
    }
    Ok(MatterNodeDetail { summary, projections, subscription: record.subscription })
}

} // verus!
