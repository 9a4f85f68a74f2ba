use komodo_core::registry::{ActionFlag, ActionState, ActionStateRegistry};

#[test]
fn unknown_id_reads_as_idle() {
    let registry = ActionStateRegistry::new();
    let id = String::from("sync-1");
    let state = registry.get(&id);
    assert_eq!(state, ActionState { syncing: false, deploying: false });
    assert!(!registry.busy(&id));
}

#[test]
fn racing_acquisitions_get_exactly_one_success() {
    let mut registry = ActionStateRegistry::new();
    let id = String::from("sync-1");
    let first = registry.acquire(&id, ActionFlag::Syncing);
    let second = registry.acquire(&id, ActionFlag::Syncing);
    assert!(first.is_ok());
    assert!(second.is_err());
    registry.release(&id, ActionFlag::Syncing);
    let third = registry.acquire(&id, ActionFlag::Syncing);
    assert!(third.is_ok());
}

#[test]
fn busy_reports_any_held_flag() {
    let mut registry = ActionStateRegistry::new();
    let id = String::from("sync-1");
    assert!(registry.acquire(&id, ActionFlag::Deploying).is_ok());
    assert!(registry.busy(&id));
    assert!(registry.get(&id).busy());
    registry.release(&id, ActionFlag::Deploying);
    assert!(!registry.busy(&id));
}

#[test]
fn flags_are_independent_per_kind_and_id() {
    let mut registry = ActionStateRegistry::new();
    let a = String::from("sync-1");
    let b = String::from("sync-2");
    assert!(registry.acquire(&a, ActionFlag::Syncing).is_ok());
    // a different flag on the same id, and any flag on another id, are free
    assert!(registry.acquire(&a, ActionFlag::Deploying).is_ok());
    assert!(registry.acquire(&b, ActionFlag::Syncing).is_ok());
    registry.release(&a, ActionFlag::Syncing);
    assert!(registry.busy(&a));
    registry.release(&a, ActionFlag::Deploying);
    assert!(!registry.busy(&a));
    assert!(registry.busy(&b));
}

#[test]
fn release_is_idempotent() {
    let mut registry = ActionStateRegistry::new();
    let id = String::from("sync-1");
    registry.release(&id, ActionFlag::Syncing);
    registry.release(&id, ActionFlag::Syncing);
    assert!(!registry.busy(&id));
    assert!(registry.acquire(&id, ActionFlag::Syncing).is_ok());
    registry.release(&id, ActionFlag::Syncing);
    registry.release(&id, ActionFlag::Syncing);
    assert!(!registry.busy(&id));
}
