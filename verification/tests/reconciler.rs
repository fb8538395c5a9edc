use hawkbit_fleet::reconcile::reconcile_actions;
use hawkbit_fleet::reconcile::ReconcilePolicy;
use hawkbit_fleet::types::Action;

fn action(id: i64, kind: &str, status: &str, detail: &str) -> Action {
    Action {
        links: serde_json::Value::Null,
        created_at: 0,
        created_by: "tester".to_string(),
        detail_status: detail.to_string(),
        force_type: "forced".to_string(),
        id,
        last_modified_at: 0,
        last_modified_by: "tester".to_string(),
        status: status.to_string(),
        action_type: kind.to_string(),
        rollout: None,
        rollout_name: None,
        weight: None,
    }
}

fn spare() -> ReconcilePolicy {
    ReconcilePolicy::default()
}

#[test]
fn first_pending_update_is_active_later_ones_are_canceled() {
    let actions = vec![
        action(1, "update", "pending", "scheduled"),
        action(2, "update", "pending", "scheduled"),
        action(3, "update", "finished", "finished"),
        action(4, "update", "pending", "scheduled"),
    ];
    let plan = reconcile_actions(&actions, &spare());
    assert_eq!(plan.active, Some(1));
    assert_eq!(plan.canceled, vec![2, 4]);
}

#[test]
fn reconciling_again_cancels_nothing() {
    let remaining = vec![
        action(1, "update", "pending", "scheduled"),
        action(3, "update", "finished", "finished"),
    ];
    let plan = reconcile_actions(&remaining, &spare());
    assert_eq!(plan.active, Some(1));
    assert!(plan.canceled.is_empty());
}

#[test]
fn a_running_operation_is_never_canceled() {
    let actions = vec![
        action(10, "update", "updating", "retrieved"),
        action(11, "update", "pending", "running"),
        action(12, "update", "updating", "running"),
        action(13, "update", "pending", "scheduled"),
    ];
    let plan = reconcile_actions(&actions, &spare());
    assert_eq!(plan.active, Some(10));
    assert_eq!(plan.canceled, vec![13]);
}

#[test]
fn the_policy_can_give_up_running_operations() {
    let actions = vec![
        action(10, "update", "updating", "retrieved"),
        action(11, "update", "pending", "running"),
        action(12, "update", "finished", "running"),
    ];
    let plan = reconcile_actions(&actions, &ReconcilePolicy { spare_running: false });
    assert_eq!(plan.active, Some(10));
    assert_eq!(plan.canceled, vec![11]);
}

#[test]
fn default_policy_spares_running_operations() {
    assert!(ReconcilePolicy::default().spare_running);
}

#[test]
fn other_kinds_never_count() {
    let actions = vec![
        action(1, "cancel", "pending", "scheduled"),
        action(2, "update", "pending", "scheduled"),
        action(3, "cancel", "pending", "scheduled"),
        action(4, "forced", "updating", "scheduled"),
    ];
    let plan = reconcile_actions(&actions, &spare());
    assert_eq!(plan.active, Some(2));
    assert!(plan.canceled.is_empty());
}

#[test]
fn nothing_is_canceled_before_an_operation_is_active() {
    let actions = vec![
        action(1, "update", "canceling", "scheduled"),
        action(2, "update", "error", "error"),
        action(3, "update", "updating", "retrieved"),
        action(4, "update", "canceling", "scheduled"),
    ];
    let plan = reconcile_actions(&actions, &spare());
    assert_eq!(plan.active, Some(3));
    assert_eq!(plan.canceled, vec![4]);
}

#[test]
fn no_operations_no_plan() {
    let plan = reconcile_actions(&Vec::new(), &spare());
    assert_eq!(plan.active, None);
    assert!(plan.canceled.is_empty());
}

#[test]
fn without_a_live_update_nothing_is_active() {
    let actions = vec![
        action(1, "update", "finished", "finished"),
        action(2, "update", "canceled", "canceled"),
    ];
    let plan = reconcile_actions(&actions, &spare());
    assert_eq!(plan.active, None);
    assert!(plan.canceled.is_empty());
}
