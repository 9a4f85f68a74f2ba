//! The generic resource envelope and the cross-cutting records the
//! lifecycle hooks work with: target references, operation tags, users,
//! per-operation audit logs, and alerts.

use vstd::prelude::*;

verus! {

/// The kinds of managed resources.
#[derive(Clone, Copy, Debug, PartialEq, Eq)]
pub enum ResourceTargetVariant {
    Builder,
    Server,
    ResourceSync,
}

/// A tagged reference to one resource, usable by cross-cutting systems
/// such as alerts.
#[derive(Debug, PartialEq, Eq)]
pub enum ResourceTarget {
    Builder(String),
    Server(String),
    ResourceSync(String),
}

impl Clone for ResourceTarget {
    fn clone(&self) -> (r: Self)
        ensures
            r == *self,
    {
        match self {
            ResourceTarget::Builder(id) => ResourceTarget::Builder(id.clone()),
            ResourceTarget::Server(id) => ResourceTarget::Server(id.clone()),
            ResourceTarget::ResourceSync(id) => ResourceTarget::ResourceSync(id.clone()),
        }
    }
}

/// Two target references name the same resource: the same kind and the
/// same id contents.
pub open spec fn target_matches(a: ResourceTarget, b: ResourceTarget) -> bool {
    match (a, b) {
        (ResourceTarget::Builder(x), ResourceTarget::Builder(y)) => x@ == y@,
        (ResourceTarget::Server(x), ResourceTarget::Server(y)) => x@ == y@,
        (ResourceTarget::ResourceSync(x), ResourceTarget::ResourceSync(y)) => x@ == y@,
        _ => false,
    }
}

/// The operations the lifecycle engine tags its audit records with.
#[derive(Clone, Copy, Debug, PartialEq, Eq)]
pub enum Operation {
    CreateResourceSync,
    UpdateResourceSync,
    RenameResourceSync,
    DeleteResourceSync,
}

/// The acting identity an operation runs under. Authorization is
/// provided, not computed, by this library.
#[derive(Clone, Debug, PartialEq, Eq)]
pub struct User {
    pub id: String,
    /// Whether the user holds the administrator capability.
    pub admin: bool,
}

/// The generic resource envelope: declared config and system-derived
/// info, never edited directly by users.
#[derive(Clone, Debug, PartialEq, Eq)]
pub struct Resource<C, I> {
    pub id: String,
    pub name: String,
    pub tags: Vec<String>,
    /// User-declared state.
    pub config: C,
    /// System-computed state.
    pub info: I,
}

/// One entry of a per-operation audit log.
#[derive(Clone, Debug, PartialEq, Eq)]
pub struct UpdateLog {
    /// The stage of the operation the entry belongs to.
    pub stage: String,
    /// The human-readable message.
    pub contents: String,
    /// Whether the entry records a failure.
    pub error: bool,
}

/// The append-only audit record of one operation. Hooks append entries;
/// a collaborator persists the record.
#[derive(Clone, Debug, PartialEq, Eq)]
pub struct Update {
    pub operation: Operation,
    pub logs: Vec<UpdateLog>,
}

impl Update {
    /// A fresh, empty audit record for one operation.
    pub fn new(operation: Operation) -> (r: Update)
        ensures
            r.operation == operation,
            r.logs@ == Seq::<UpdateLog>::empty(),
    {
        Update { operation, logs: Vec::new() }
    }

    /// Append a failure entry; nothing already logged changes.
    pub fn push_error_log(&mut self, stage: String, contents: String)
        ensures
            final(self).operation == old(self).operation,
            final(self).logs@ == old(self).logs@.push(
                UpdateLog { stage, contents, error: true },
            ),
    {
        self.logs.push(UpdateLog { stage, contents, error: true });
    }
}

/// An alert raised against one resource, resolved when its cause goes
/// away — or when its target is deleted.
#[derive(Clone, Debug, PartialEq, Eq)]
pub struct Alert {
    /// The resource the alert refers to.
    pub target: ResourceTarget,
    /// Whether the alert has been resolved.
    pub resolved: bool,
    /// When the alert was resolved, if it was.
    pub resolved_ts: Option<i64>,
}

/// What an alert becomes when alerts for `target` are resolved at
/// `resolved_ts`: an alert referencing the target is marked resolved
/// with that timestamp, any other alert is untouched.
pub open spec fn spec_resolve_alert(a: Alert, target: ResourceTarget, resolved_ts: i64) -> Alert {
    if target_matches(a.target, target) {
        Alert { resolved: true, resolved_ts: Some(resolved_ts), ..a }
    } else {
        a
    }
}

/// Mark every alert referencing the target resolved with the given
/// timestamp, leaving all other alerts untouched. Deleting a resource
/// must not leave permanently open alerts for a target that no longer
/// exists.
pub fn resolve_alerts_for_target(alerts: &mut Vec<Alert>, target: &ResourceTarget, resolved_ts: i64)
    ensures
        final(alerts)@.len() == old(alerts)@.len(),
        forall|i: int|
            0 <= i < old(alerts)@.len() ==> final(alerts)@[i] == spec_resolve_alert(
                old(alerts)@[i],
                *target,
                resolved_ts,
            ),
{
    let ghost a0 = alerts@;
    let mut i: usize = 0;
    while i < alerts.len()
        invariant
            i <= a0.len(),
            alerts@.len() == a0.len(),
            forall|k: int|
                0 <= k < i ==> alerts@[k] == spec_resolve_alert(a0[k], *target, resolved_ts),
            forall|k: int| i <= k < a0.len() ==> alerts@[k] == a0[k],
        decreases a0.len() - i,
    {
        let hit = match (&alerts[i].target, target) {
            (ResourceTarget::Builder(x), ResourceTarget::Builder(y)) => *x == *y,
            (ResourceTarget::Server(x), ResourceTarget::Server(y)) => *x == *y,
            (ResourceTarget::ResourceSync(x), ResourceTarget::ResourceSync(y)) => *x == *y,
            _ => false,
        };
        if hit {
            let resolved = Alert {
                target: alerts[i].target.clone(),
                resolved: true,
                resolved_ts: Some(resolved_ts),
            };
            alerts[i] = resolved;
        }
        i = i + 1;
    }
}

} // verus!
