use homemagic_application::matter_inventory::{
    detail, inventory_page_limit, summary, InventoryNode, InventoryProjection, InventorySubscription,
    MatterNodeInventoryError, MatterNodeInventoryRecord,
};
use homemagic_application::matter_subscription::StoredMatterSubscriptionState;

fn projection(id: u64, device_id: u64) -> InventoryProjection {
    InventoryProjection {
        projection_id: id,
        installation_id: 1,
        fabric_id: 2,
        node_id: 3,
        device_id,
        endpoint_id: "1".to_owned(),
        capability_schema: "on_off.v1".to_owned(),
        projection_revision: 1,
        revision: 4,
        updated_at: 50,
    }
}

fn record(projections: Vec<InventoryProjection>) -> MatterNodeInventoryRecord {
    MatterNodeInventoryRecord {
        node: InventoryNode {
            installation_id: 1,
            device_id: 9,
            fabric_id: 2,
            node_id: 3,
            descriptor_revision: 6,
            revision: 7,
            updated_at: 40,
        },
        projections,
        subscription: Some(InventorySubscription {
            subscription_id: 12,
            state: StoredMatterSubscriptionState::Established,
            report_sequence: 5,
            stale_after: 90,
            revision: 2,
            updated_at: 45,
        }),
        commissioning_operation_id: Some(30),
    }
}

#[test]
fn inventory_pages_hold_one_to_two_hundred_fifty_six_nodes() {
    assert_eq!(inventory_page_limit(0), Err(MatterNodeInventoryError::InvalidPageLimit));
    assert_eq!(inventory_page_limit(1), Ok(1));
    assert_eq!(inventory_page_limit(256), Ok(256));
    assert_eq!(inventory_page_limit(257), Err(MatterNodeInventoryError::InvalidPageLimit));
}

#[test]
fn coherent_record_is_summarized() {
    let s = summary(&record(vec![projection(20, 9), projection(21, 9)])).expect("coherent");
    assert_eq!((s.fabric_id, s.node_id, s.device_id), (2, 3, 9));
    assert_eq!(s.projection_ids, vec![20, 21]);
    assert_eq!(s.subscription_id, Some(12));
    assert_eq!(s.commissioning_operation_id, Some(30));
    assert_eq!((s.descriptor_revision, s.revision, s.updated_at), (6, 7, 40));
}

#[test]
fn projection_of_another_device_is_inconsistent() {
    assert!(matches!(summary(&record(vec![projection(20, 8)])), Err(MatterNodeInventoryError::InvalidState)));
    assert!(matches!(detail(&record(vec![projection(20, 9), projection(21, 8)])), Err(MatterNodeInventoryError::InvalidState)));
}

#[test]
fn detail_lists_projection_metadata() {
    let d = detail(&record(vec![projection(20, 9)])).expect("coherent");
    assert_eq!(d.projections.len(), 1);
    assert_eq!(d.projections[0].projection_id, 20);
    assert_eq!(d.projections[0].capability_schema, "on_off.v1");
    assert_eq!(d.subscription.expect("subscription").report_sequence, 5);
    assert_eq!(d.summary.projection_ids, vec![20]);
}
