use komodo_core::registry::{ActionFlag, ActionStateRegistry};
use komodo_core::resource::{Alert, Operation, Resource, ResourceTarget, ResourceTargetVariant, Update, User};
use komodo_core::sync::{
    PartialResourceSyncConfig, ResourceSync, ResourceSyncConfig, ResourceSyncInfo,
    ResourceSyncState, SyncDeployUpdate, get_resource_sync_state, repo_link,
};

fn idle_info() -> ResourceSyncInfo {
    ResourceSyncInfo {
        last_sync_ts: 0,
        last_sync_hash: None,
        last_sync_message: None,
        pending_error: None,
        remote_errors: Vec::new(),
        resource_updates: Vec::new(),
        variable_updates: Vec::new(),
        user_group_updates: Vec::new(),
        pending_deploy: SyncDeployUpdate { to_deploy: 0 },
    }
}

fn sample_config() -> ResourceSyncConfig {
    ResourceSyncConfig {
        git_provider: String::from("github.com"),
        git_https: true,
        repo: String::from("owner/stack"),
        branch: String::from("main"),
        resource_path: String::from("resources"),
        files_on_host: false,
        managed: true,
        file_contents: String::new(),
    }
}

fn sample_sync(id: &str, info: ResourceSyncInfo) -> ResourceSync {
    Resource {
        id: String::from(id),
        name: String::from("stack"),
        tags: vec![String::from("prod")],
        config: sample_config(),
        info,
    }
}

#[test]
fn syncing_flag_wins_over_persisted_errors() {
    let mut registry = ActionStateRegistry::new();
    let id = String::from("sync-1");
    registry.acquire(&id, ActionFlag::Syncing).unwrap();
    let mut info = idle_info();
    info.pending_error = Some(String::from("parse failure"));
    info.resource_updates.push(String::from("deployment: api"));
    let state = get_resource_sync_state(&registry, &id, &info);
    assert_eq!(state, ResourceSyncState::Syncing);
}

#[test]
fn pending_error_without_syncing_is_failed() {
    let registry = ActionStateRegistry::new();
    let id = String::from("sync-1");
    let mut info = idle_info();
    info.pending_error = Some(String::from("parse failure"));
    assert_eq!(get_resource_sync_state(&registry, &id, &info), ResourceSyncState::Failed);
}

#[test]
fn remote_errors_without_syncing_are_failed() {
    let registry = ActionStateRegistry::new();
    let id = String::from("sync-1");
    let mut info = idle_info();
    info.remote_errors.push(String::from("clone failed"));
    assert_eq!(get_resource_sync_state(&registry, &id, &info), ResourceSyncState::Failed);
}

#[test]
fn pending_updates_without_errors_are_pending() {
    let registry = ActionStateRegistry::new();
    let id = String::from("sync-1");
    let mut info = idle_info();
    info.resource_updates.push(String::from("deployment: api"));
    assert_eq!(get_resource_sync_state(&registry, &id, &info), ResourceSyncState::Pending);

    let mut deploys = idle_info();
    deploys.pending_deploy.to_deploy = 2;
    assert_eq!(get_resource_sync_state(&registry, &id, &deploys), ResourceSyncState::Pending);
}

#[test]
fn no_activity_no_errors_no_pending_is_synced() {
    let registry = ActionStateRegistry::new();
    let id = String::from("sync-1");
    let info = idle_info();
    assert_eq!(get_resource_sync_state(&registry, &id, &info), ResourceSyncState::Synced);
}

#[test]
fn delete_resolves_every_alert_targeting_the_sync() {
    let sync = sample_sync("sync-1", idle_info());
    let mut update = Update::new(Operation::DeleteResourceSync);
    let mut alerts = vec![
        Alert {
            target: ResourceTarget::ResourceSync(String::from("sync-1")),
            resolved: false,
            resolved_ts: None,
        },
        Alert {
            target: ResourceTarget::Server(String::from("srv-9")),
            resolved: false,
            resolved_ts: None,
        },
        Alert {
            target: ResourceTarget::ResourceSync(String::from("sync-1")),
            resolved: false,
            resolved_ts: None,
        },
    ];
    let r = ResourceSync::pre_delete(&sync, &mut update, &mut alerts, 1_700_000_000);
    assert!(r.is_ok());
    assert!(alerts[0].resolved);
    assert_eq!(alerts[0].resolved_ts, Some(1_700_000_000));
    assert!(alerts[2].resolved);
    assert_eq!(alerts[2].resolved_ts, Some(1_700_000_000));
    assert!(!alerts[1].resolved);
    assert_eq!(alerts[1].resolved_ts, None);
    assert!(update.logs.is_empty());
    assert!(ResourceSync::post_delete(&sync, &mut update).is_ok());
}

#[test]
fn failed_refresh_after_create_is_logged_not_fatal() {
    let sync = sample_sync("sync-1", idle_info());
    let mut update = Update::new(Operation::CreateResourceSync);
    let r = ResourceSync::post_create(
        &sync,
        &mut update,
        Err(String::from("the sync pending cache has failed to refresh")),
    );
    assert!(r.is_ok());
    assert_eq!(update.logs.len(), 1);
    assert_eq!(update.logs[0].stage, "Refresh sync pending");
    assert!(update.logs[0].error);

    let mut clean = Update::new(Operation::UpdateResourceSync);
    assert!(ResourceSync::post_update(&sync, &mut clean, Ok(())).is_ok());
    assert!(clean.logs.is_empty());
}

#[test]
fn list_item_projects_config_info_and_state() {
    let mut registry = ActionStateRegistry::new();
    let mut info = idle_info();
    info.last_sync_ts = 42;
    info.last_sync_hash = Some(String::from("abc123"));
    info.variable_updates.push(String::from("var: retries"));
    let sync = sample_sync("sync-1", info);
    let item = ResourceSync::to_list_item(sync, &registry);
    assert_eq!(item.id, "sync-1");
    assert_eq!(item.name, "stack");
    assert_eq!(item.resource_type, ResourceTargetVariant::ResourceSync);
    assert!(!item.info.file_contents);
    assert!(item.info.managed);
    assert_eq!(item.info.repo_link, "https://github.com/owner/stack/tree/main");
    assert_eq!(item.info.last_sync_ts, 42);
    assert_eq!(item.info.last_sync_hash.as_deref(), Some("abc123"));
    assert_eq!(item.info.state, ResourceSyncState::Pending);

    let id = String::from("sync-2");
    registry.acquire(&id, ActionFlag::Syncing).unwrap();
    let busy_item = ResourceSync::to_list_item(sample_sync("sync-2", idle_info()), &registry);
    assert_eq!(busy_item.info.state, ResourceSyncState::Syncing);
}

#[test]
fn repo_link_formats_scheme_repo_and_branch() {
    assert_eq!(
        repo_link(
            &String::from("github.com"),
            &String::from("owner/stack"),
            &String::from("main"),
            true,
        ),
        "https://github.com/owner/stack/tree/main",
    );
    assert_eq!(
        repo_link(
            &String::from("git.local"),
            &String::from("stack"),
            &String::from(""),
            false,
        ),
        "http://git.local/stack",
    );
    assert_eq!(
        repo_link(&String::from("github.com"), &String::from(""), &String::from("main"), true),
        "",
    );
}

#[test]
fn lifecycle_identity_and_authorization() {
    assert_eq!(ResourceSync::resource_type(), ResourceTargetVariant::ResourceSync);
    assert_eq!(
        ResourceSync::resource_target(String::from("sync-1")),
        ResourceTarget::ResourceSync(String::from("sync-1")),
    );
    assert_eq!(ResourceSync::create_operation(), Operation::CreateResourceSync);
    assert_eq!(ResourceSync::update_operation(), Operation::UpdateResourceSync);
    assert_eq!(ResourceSync::rename_operation(), Operation::RenameResourceSync);
    assert_eq!(ResourceSync::delete_operation(), Operation::DeleteResourceSync);
    let admin = User { id: String::from("u1"), admin: true };
    let plain = User { id: String::from("u2"), admin: false };
    assert!(ResourceSync::user_can_create(&admin));
    assert!(!ResourceSync::user_can_create(&plain));
}

#[test]
fn validation_hooks_accept_every_partial_unchanged() {
    let user = User { id: String::from("u1"), admin: true };
    let mut partial = PartialResourceSyncConfig {
        git_provider: None,
        git_https: None,
        repo: Some(String::from("owner/stack")),
        branch: None,
        resource_path: None,
        files_on_host: None,
        managed: None,
        file_contents: None,
    };
    assert!(ResourceSync::validate_create_config(&mut partial, &user).is_ok());
    let id = String::from("sync-1");
    assert!(ResourceSync::validate_update_config(&id, &mut partial, &user).is_ok());
    assert_eq!(partial.repo.as_deref(), Some("owner/stack"));
}

#[test]
fn busy_follows_the_registry() {
    let mut registry = ActionStateRegistry::new();
    let id = String::from("sync-1");
    assert!(!ResourceSync::busy(&registry, &id));
    registry.acquire(&id, ActionFlag::Syncing).unwrap();
    assert!(ResourceSync::busy(&registry, &id));
}
