//! The declarative-sync resource kind: its config and derived info,
//! the four-state status derivation, the list-item projection, and the
//! lifecycle hooks the generic engine calls.

use vstd::prelude::*;

use crate::registry::ActionStateRegistry;
use crate::resource::{
    Alert, Operation, Resource, ResourceTarget, ResourceTargetVariant, Update, User,
    resolve_alerts_for_target, spec_resolve_alert,
};

verus! {

/// The derived operational status of a sync resource. Never stored:
/// always recomputed from persisted info plus in-flight activity.
#[derive(Clone, Copy, Debug, PartialEq, Eq)]
pub enum ResourceSyncState {
    /// Nothing pending and nothing failed.
    Synced,
    /// Detected but not-yet-applied differences exist.
    Pending,
    /// The last reconciliation failed.
    Failed,
    /// A reconciliation is in flight right now.
    Syncing,
}

/// The deploys a reconciliation still has to carry out.
#[derive(Clone, Debug, PartialEq, Eq)]
pub struct SyncDeployUpdate {
    /// How many deployments the pending changes would touch.
    pub to_deploy: i64,
}

/// User-declared configuration of a sync resource.
#[derive(Clone, Debug, PartialEq, Eq)]
pub struct ResourceSyncConfig {
    /// The git provider domain the declared state is pulled from.
    pub git_provider: String,
    /// Whether to connect to the git provider over https.
    pub git_https: bool,
    /// The repository holding the declared state.
    pub repo: String,
    /// The branch of the repository.
    pub branch: String,
    /// The path of the declared-state files within the repository.
    pub resource_path: String,
    /// Whether the declared state is read from files on the host.
    pub files_on_host: bool,
    /// Whether the sync manages the resources it declares.
    pub managed: bool,
    /// Declared state given inline instead of pulled from a repository.
    pub file_contents: String,
}

/// Partial form of [`ResourceSyncConfig`]: every field optional.
#[derive(Clone, Debug, PartialEq, Eq)]
pub struct PartialResourceSyncConfig {
    pub git_provider: Option<String>,
    pub git_https: Option<bool>,
    pub repo: Option<String>,
    pub branch: Option<String>,
    pub resource_path: Option<String>,
    pub files_on_host: Option<bool>,
    pub managed: Option<bool>,
    pub file_contents: Option<String>,
}

/// System-derived info of a sync resource, mutated only by the
/// reconciliation that recomputes pending changes.
#[derive(Clone, Debug, PartialEq, Eq)]
pub struct ResourceSyncInfo {
    /// When the declared state was last applied.
    pub last_sync_ts: i64,
    /// The commit hash last applied, if any.
    pub last_sync_hash: Option<String>,
    /// The commit message last applied, if any.
    pub last_sync_message: Option<String>,
    /// The error of the last pending-change computation, if it failed.
    pub pending_error: Option<String>,
    /// Errors reported by the remote source of declared state.
    pub remote_errors: Vec<String>,
    /// Pending updates to managed resources, by name.
    pub resource_updates: Vec<String>,
    /// Pending updates to variables, by name.
    pub variable_updates: Vec<String>,
    /// Pending updates to user groups, by name.
    pub user_group_updates: Vec<String>,
    /// The deploys the pending changes would trigger.
    pub pending_deploy: SyncDeployUpdate,
}

/// Summary info shown for a sync resource in list views.
#[derive(Clone, Debug, PartialEq, Eq)]
pub struct ResourceSyncListItemInfo {
    /// Whether declared state is given inline.
    pub file_contents: bool,
    pub files_on_host: bool,
    pub managed: bool,
    /// A browsable link to the repository, when one is configured.
    pub repo_link: String,
    pub git_provider: String,
    pub repo: String,
    pub branch: String,
    pub last_sync_ts: i64,
    pub last_sync_hash: Option<String>,
    pub last_sync_message: Option<String>,
    pub resource_path: String,
    /// The derived status at projection time.
    pub state: ResourceSyncState,
}

/// The generic list-item envelope: a summary view of one resource.
#[derive(Clone, Debug, PartialEq, Eq)]
pub struct ResourceListItem<I> {
    pub id: String,
    pub name: String,
    pub tags: Vec<String>,
    pub resource_type: ResourceTargetVariant,
    pub info: I,
}

/// A sync resource.
pub type ResourceSync = Resource<ResourceSyncConfig, ResourceSyncInfo>;

/// The list view of a sync resource.
pub type ResourceSyncListItem = ResourceListItem<ResourceSyncListItemInfo>;

/// The status derivation, in strict priority order: in-flight activity
/// always wins; then failures; then pending work; then all clear.
pub open spec fn spec_sync_state(syncing: bool, data: ResourceSyncInfo) -> ResourceSyncState {
    if syncing {
        ResourceSyncState::Syncing
    } else if data.pending_error is Some || data.remote_errors@.len() > 0 {
        ResourceSyncState::Failed
    } else if data.resource_updates@.len() > 0 || data.variable_updates@.len() > 0
        || data.user_group_updates@.len() > 0 || data.pending_deploy.to_deploy > 0 {
        ResourceSyncState::Pending
    } else {
        ResourceSyncState::Synced
    }
}

/// Derive the status of the sync `id` from its persisted info and the
/// in-flight activity the registry reports for it.
pub fn get_resource_sync_state(
    registry: &ActionStateRegistry,
    id: &String,
    data: &ResourceSyncInfo,
) -> (r: ResourceSyncState)
    ensures
        r == spec_sync_state(registry.spec_get(id@).syncing, *data),
{
    let state = registry.get(id);
    if state.syncing {
        return ResourceSyncState::Syncing;
    }
    if data.pending_error.is_some() || !data.remote_errors.is_empty() {
        ResourceSyncState::Failed
    } else if !data.resource_updates.is_empty() || !data.variable_updates.is_empty()
        || !data.user_group_updates.is_empty() || data.pending_deploy.to_deploy > 0 {
        ResourceSyncState::Pending
    } else {
        ResourceSyncState::Synced
    }
}

/// The link a list view shows for a configured repository: nothing
/// without a repository; otherwise scheme, provider and repository,
/// with the branch appended when one is set.
pub open spec fn spec_repo_link(
    provider: Seq<char>,
    repo: Seq<char>,
    branch: Seq<char>,
    https: bool,
) -> Seq<char> {
    if repo.len() == 0 {
        Seq::<char>::empty()
    } else {
        (if https { "https://"@ } else { "http://"@ }) + provider + "/"@ + repo + (
        if branch.len() == 0 { Seq::<char>::empty() } else { "/tree/"@ + branch })
    }
}

/// Build the browsable repository link of a sync config.
pub fn repo_link(provider: &String, repo: &String, branch: &String, https: bool) -> (r: String)
    ensures
        r@ == spec_repo_link(provider@, repo@, branch@, https),
{
    if repo.as_str().is_empty() {
        return String::new();
    }
    let mut link = if https {
        String::from_str("https://")
    } else {
        String::from_str("http://")
    };
    link.append(provider.as_str());
    link.append("/");
    link.append(repo.as_str());
    if !branch.as_str().is_empty() {
        link.append("/tree/");
        link.append(branch.as_str());
    }
    proof {
        assert(link@ =~= spec_repo_link(provider@, repo@, branch@, https));
    }
    link
}

impl Resource<ResourceSyncConfig, ResourceSyncInfo> {
    /// The kind tag of sync resources.
    pub fn resource_type() -> (r: ResourceTargetVariant)
        ensures
            r == ResourceTargetVariant::ResourceSync,
    {
        ResourceTargetVariant::ResourceSync
    }

    /// The target reference of the sync resource with the given id.
    pub fn resource_target(id: String) -> (r: ResourceTarget)
        ensures
            r == ResourceTarget::ResourceSync(id),
    {
        ResourceTarget::ResourceSync(id)
    }

    /// Whether any operation is in flight for the sync `id`.
    pub fn busy(registry: &ActionStateRegistry, id: &String) -> (r: bool)
        ensures
            r == registry.spec_get(id@).busy_spec(),
    {
        registry.busy(id)
    }

    /// Project the resource into its summary view. Read-only: consults
    /// the registry for the derived status and mutates nothing.
    pub fn to_list_item(
        resource_sync: Resource<ResourceSyncConfig, ResourceSyncInfo>,
        registry: &ActionStateRegistry,
    ) -> (r: ResourceSyncListItem)
        ensures
            r.id == resource_sync.id,
            r.name == resource_sync.name,
            r.tags == resource_sync.tags,
            r.resource_type == ResourceTargetVariant::ResourceSync,
            r.info.file_contents == (resource_sync.config.file_contents@.len() > 0),
            r.info.files_on_host == resource_sync.config.files_on_host,
            r.info.managed == resource_sync.config.managed,
            r.info.repo_link@ == spec_repo_link(
                resource_sync.config.git_provider@,
                resource_sync.config.repo@,
                resource_sync.config.branch@,
                resource_sync.config.git_https,
            ),
            r.info.git_provider == resource_sync.config.git_provider,
            r.info.repo == resource_sync.config.repo,
            r.info.branch == resource_sync.config.branch,
            r.info.last_sync_ts == resource_sync.info.last_sync_ts,
            r.info.last_sync_hash == resource_sync.info.last_sync_hash,
            r.info.last_sync_message == resource_sync.info.last_sync_message,
            r.info.resource_path == resource_sync.config.resource_path,
            r.info.state == spec_sync_state(
                registry.spec_get(resource_sync.id@).syncing,
                resource_sync.info,
            ),
    {
        let state = get_resource_sync_state(registry, &resource_sync.id, &resource_sync.info);
        let link = repo_link(
            &resource_sync.config.git_provider,
            &resource_sync.config.repo,
            &resource_sync.config.branch,
            resource_sync.config.git_https,
        );
        ResourceSyncListItem {
            id: resource_sync.id,
            name: resource_sync.name,
            tags: resource_sync.tags,
            resource_type: ResourceTargetVariant::ResourceSync,
            info: ResourceSyncListItemInfo {
                file_contents: !resource_sync.config.file_contents.as_str().is_empty(),
                files_on_host: resource_sync.config.files_on_host,
                managed: resource_sync.config.managed,
                repo_link: link,
                git_provider: resource_sync.config.git_provider,
                repo: resource_sync.config.repo,
                branch: resource_sync.config.branch,
                last_sync_ts: resource_sync.info.last_sync_ts,
                last_sync_hash: resource_sync.info.last_sync_hash,
                last_sync_message: resource_sync.info.last_sync_message,
                resource_path: resource_sync.config.resource_path,
                state,
            },
        }
    }

    /// The audit tag of a create.
    pub fn create_operation() -> (r: Operation)
        ensures
            r == Operation::CreateResourceSync,
    {
        Operation::CreateResourceSync
    }

    /// The audit tag of an update.
    pub fn update_operation() -> (r: Operation)
        ensures
            r == Operation::UpdateResourceSync,
    {
        Operation::UpdateResourceSync
    }

    /// The audit tag of a rename.
    pub fn rename_operation() -> (r: Operation)
        ensures
            r == Operation::RenameResourceSync,
    {
        Operation::RenameResourceSync
    }

    /// The audit tag of a delete.
    pub fn delete_operation() -> (r: Operation)
        ensures
            r == Operation::DeleteResourceSync,
    {
        Operation::DeleteResourceSync
    }

    /// Only administrators may create sync resources.
    pub fn user_can_create(user: &User) -> (r: bool)
        ensures
            r == user.admin,
    {
        user.admin
    }

    /// Validation hook before a create: sync configs need no
    /// normalization, so every partial passes unchanged.
    pub fn validate_create_config(config: &mut PartialResourceSyncConfig, user: &User) -> (r:
        Result<(), String>)
        ensures
            r is Ok,
            *final(config) == *old(config),
    {
        Ok(())
    }

    /// Validation hook before an update: sync configs need no
    /// normalization, so every partial passes unchanged.
    pub fn validate_update_config(
        id: &String,
        config: &mut PartialResourceSyncConfig,
        user: &User,
    ) -> (r: Result<(), String>)
        ensures
            r is Ok,
            *final(config) == *old(config),
    {
        Ok(())
    }

    /// Side-effect hook after a create: the engine has triggered a
    /// recomputation of pending changes for the new resource, and this
    /// hook folds that trigger's outcome into the audit record. A
    /// failed refresh never fails the create: it is logged and the next
    /// refresh corrects the cache.
    pub fn post_create(
        created: &Resource<ResourceSyncConfig, ResourceSyncInfo>,
        update: &mut Update,
        refresh_result: Result<(), String>,
    ) -> (r: Result<(), String>)
        ensures
            r is Ok,
            refresh_result is Ok ==> *final(update) == *old(update),
            refresh_result matches Err(e) ==> {
                &&& final(update).operation == old(update).operation
                &&& final(update).logs@.len() == old(update).logs@.len() + 1
                &&& final(update).logs@.subrange(0, old(update).logs@.len() as int) == old(
                    update,
                ).logs@
                &&& final(update).logs@.last().stage@ == "Refresh sync pending"@
                &&& final(update).logs@.last().contents == e
                &&& final(update).logs@.last().error == true
            },
    {
        match refresh_result {
            Ok(()) => Ok(()),
            Err(e) => {
                let ghost logs0 = update.logs@;
                update.push_error_log(String::from_str("Refresh sync pending"), e);
                proof {
                    assert(update.logs@.subrange(0, logs0.len() as int) =~= logs0);
                }
                Ok(())
            },
        }
    }

    /// Side-effect hook after an update: the same refresh trigger and
    /// the same logging as after a create.
    pub fn post_update(
        updated: &Resource<ResourceSyncConfig, ResourceSyncInfo>,
        update: &mut Update,
        refresh_result: Result<(), String>,
    ) -> (r: Result<(), String>)
        ensures
            r is Ok,
            refresh_result is Ok ==> *final(update) == *old(update),
            refresh_result matches Err(e) ==> {
                &&& final(update).operation == old(update).operation
                &&& final(update).logs@.len() == old(update).logs@.len() + 1
                &&& final(update).logs@.subrange(0, old(update).logs@.len() as int) == old(
                    update,
                ).logs@
                &&& final(update).logs@.last().stage@ == "Refresh sync pending"@
                &&& final(update).logs@.last().contents == e
                &&& final(update).logs@.last().error == true
            },
    {
        Self::post_create(updated, update, refresh_result)
    }

    /// Side-effect hook before a delete: every alert referencing the
    /// resource is marked resolved at the given timestamp, so its
    /// deletion leaves no permanently open alert. A failure here would
    /// abort the delete; resolving in memory cannot fail.
    pub fn pre_delete(
        resource: &Resource<ResourceSyncConfig, ResourceSyncInfo>,
        update: &mut Update,
        alerts: &mut Vec<Alert>,
        now_ts: i64,
    ) -> (r: Result<(), String>)
        ensures
            r is Ok,
            *final(update) == *old(update),
            final(alerts)@.len() == old(alerts)@.len(),
            forall|i: int|
                0 <= i < old(alerts)@.len() ==> final(alerts)@[i] == spec_resolve_alert(
                    old(alerts)@[i],
                    ResourceTarget::ResourceSync(resource.id),
                    now_ts,
                ),
    {
        let target = ResourceTarget::ResourceSync(resource.id.clone());
        resolve_alerts_for_target(alerts, &target, now_ts);
        Ok(())
    }

    /// Side-effect hook after a delete: sync resources need no
    /// clean-up beyond the alert resolution already done.
    pub fn post_delete(
        resource: &Resource<ResourceSyncConfig, ResourceSyncInfo>,
        update: &mut Update,
    ) -> (r: Result<(), String>)
        ensures
            r is Ok,
            *final(update) == *old(update),
    {
        Ok(())
    }
}

} // verus!
