//! The action-state registry: a process-wide map from resource id to
//! its in-flight activity record. Constructed once at process start and
//! handed to every request handler; each operation on it is a single,
//! fast, non-suspending step, so flag acquisition acts as an atomic
//! compare-and-set.

use vstd::prelude::*;

verus! {

/// A named in-flight-activity marker that can be held on a resource.
#[derive(Clone, Copy, Debug, PartialEq, Eq)]
pub enum ActionFlag {
    /// The resource is being reconciled against its declared state.
    Syncing,
    /// The resource is being deployed.
    Deploying,
}

/// The transient per-resource record of in-flight operations. Lost
/// across restarts by design: a restart implies nothing is genuinely in
/// flight.
#[derive(Clone, Copy, Debug, PartialEq, Eq, Structural)]
pub struct ActionState {
    pub syncing: bool,
    pub deploying: bool,
}

impl ActionState {
    /// The record of a resource with nothing in flight.
    pub open spec fn idle() -> ActionState {
        ActionState { syncing: false, deploying: false }
    }

    /// Whether the given flag is set.
    pub open spec fn flag_set(self, flag: ActionFlag) -> bool {
        match flag {
            ActionFlag::Syncing => self.syncing,
            ActionFlag::Deploying => self.deploying,
        }
    }

    /// The record with the given flag set to the given value, all other
    /// flags unchanged.
    pub open spec fn with_flag(self, flag: ActionFlag, value: bool) -> ActionState {
        match flag {
            ActionFlag::Syncing => ActionState { syncing: value, ..self },
            ActionFlag::Deploying => ActionState { deploying: value, ..self },
        }
    }

    /// Whether any tracked flag is set.
    pub open spec fn busy_spec(self) -> bool {
        self.syncing || self.deploying
    }

    /// Whether any tracked flag is set: the one signal the lifecycle
    /// engine uses to gate operations on a busy resource.
    pub fn busy(&self) -> (r: bool)
        ensures
            r == self.busy_spec(),
    {
        self.syncing || self.deploying
    }
}

impl Default for ActionState {
    fn default() -> (r: Self)
        ensures
            r == ActionState::idle(),
    {
        ActionState { syncing: false, deploying: false }
    }
}

/// An operation found the relevant flag already held: a retryable,
/// user-facing condition.
#[derive(Clone, Copy, Debug, PartialEq, Eq)]
pub struct BusyError {}

/// The action state recorded for `id`, reading entries front to back;
/// an id without an entry is idle.
pub open spec fn spec_lookup(s: Seq<(String, ActionState)>, id: Seq<char>) -> ActionState
    decreases s.len(),
{
    if s.len() == 0 {
        ActionState::idle()
    } else if s[0].0@ == id {
        s[0].1
    } else {
        spec_lookup(s.drop_first(), id)
    }
}

/// Whether some entry carries `id`.
pub open spec fn spec_has_key(s: Seq<(String, ActionState)>, id: Seq<char>) -> bool
    decreases s.len(),
{
    if s.len() == 0 {
        false
    } else if s[0].0@ == id {
        true
    } else {
        spec_has_key(s.drop_first(), id)
    }
}

/// An id is present exactly when some index carries it.
proof fn lemma_has_key_index(s: Seq<(String, ActionState)>, id: Seq<char>)
    ensures
        spec_has_key(s, id) <==> exists|k: int| 0 <= k < s.len() && s[k].0@ == id,
    decreases s.len(),
{
    if s.len() > 0 {
        lemma_has_key_index(s.drop_first(), id);
        if s[0].0@ == id {
            assert(s[0].0@ == id);
        } else {
            assert forall|k: int| 0 <= k < s.len() && s[k].0@ == id implies spec_has_key(
                s,
                id,
            ) by {
                assert(s.drop_first()[k - 1] == s[k]);
            }
            if spec_has_key(s, id) {
                let k = choose|k: int|
                    0 <= k < s.drop_first().len() && s.drop_first()[k].0@ == id;
                assert(s[k + 1] == s.drop_first()[k]);
            }
        }
    }
}

/// Updating the entry that holds `id` in place changes the lookup for
/// `id` alone.
proof fn lemma_lookup_update(
    s: Seq<(String, ActionState)>,
    i: int,
    v: (String, ActionState),
    id: Seq<char>,
)
    requires
        0 <= i < s.len(),
        s[i].0@ == id,
        v.0@ == id,
        forall|k: int| 0 <= k < i ==> s[k].0@ != id,
    ensures
        spec_lookup(s.update(i, v), id) == v.1,
        forall|other: Seq<char>|
            other != id ==> spec_lookup(s.update(i, v), other) == spec_lookup(s, other),
    decreases i,
{
    if i == 0 {
        assert(s.update(0, v).drop_first() =~= s.drop_first());
        assert forall|other: Seq<char>| other != id implies spec_lookup(s.update(i, v), other)
            == spec_lookup(s, other) by {
            assert(s.update(0, v)[0] == v);
            assert(spec_lookup(s.update(0, v), other) == spec_lookup(s.drop_first(), other));
            assert(spec_lookup(s, other) == spec_lookup(s.drop_first(), other));
        }
    } else {
        assert(s.update(i, v).drop_first() =~= s.drop_first().update(i - 1, v));
        lemma_lookup_update(s.drop_first(), i - 1, v, id);
        assert forall|other: Seq<char>| other != id implies spec_lookup(s.update(i, v), other)
            == spec_lookup(s, other) by {
            assert(s.update(i, v)[0] == s[0]);
            if s[0].0@ != other {
                assert(spec_lookup(s.update(i, v), other) == spec_lookup(
                    s.drop_first().update(i - 1, v),
                    other,
                ));
                assert(spec_lookup(s.drop_first().update(i - 1, v), other) == spec_lookup(
                    s.drop_first(),
                    other,
                ));
            }
        }
    }
}

/// Appending an entry for an id that has none changes the lookup for
/// that id alone.
proof fn lemma_lookup_push(
    s: Seq<(String, ActionState)>,
    v: (String, ActionState),
    id: Seq<char>,
)
    requires
        !spec_has_key(s, id),
        v.0@ == id,
    ensures
        spec_lookup(s.push(v), id) == v.1,
        forall|other: Seq<char>|
            other != id ==> spec_lookup(s.push(v), other) == spec_lookup(s, other),
    decreases s.len(),
{
    if s.len() == 0 {
        assert(s.push(v)[0] == v);
        assert(s.push(v).drop_first() =~= Seq::<(String, ActionState)>::empty());
        assert forall|other: Seq<char>| other != id implies spec_lookup(s.push(v), other)
            == spec_lookup(s, other) by {
            assert(spec_lookup(s.push(v), other) == spec_lookup(
                Seq::<(String, ActionState)>::empty(),
                other,
            ));
        }
    } else {
        assert(s.push(v).drop_first() =~= s.drop_first().push(v));
        lemma_lookup_push(s.drop_first(), v, id);
        assert forall|other: Seq<char>| other != id implies spec_lookup(s.push(v), other)
            == spec_lookup(s, other) by {
            assert(s.push(v)[0] == s[0]);
            if s[0].0@ != other {
                assert(spec_lookup(s.push(v), other) == spec_lookup(
                    s.drop_first().push(v),
                    other,
                ));
                assert(spec_lookup(s.drop_first().push(v), other) == spec_lookup(
                    s.drop_first(),
                    other,
                ));
            }
        }
    }
}

/// The process-wide registry of in-flight activity, keyed by resource
/// id. Every id has a state: an id without an entry is idle.
pub struct ActionStateRegistry {
    entries: Vec<(String, ActionState)>,
}

impl ActionStateRegistry {
    /// Each id has at most one entry.
    pub closed spec fn wf(self) -> bool {
        forall|i: int, j: int|
            0 <= i < j < self.entries@.len() ==> self.entries@[i].0@ != self.entries@[j].0@
    }

    /// The action state recorded for an id; an id never touched is
    /// idle.
    pub closed spec fn spec_get(self, id: Seq<char>) -> ActionState {
        spec_lookup(self.entries@, id)
    }

    /// A fresh registry: every id is idle.
    pub fn new() -> (r: Self)
        ensures
            r.wf(),
            forall|id: Seq<char>| r.spec_get(id) == ActionState::idle(),
    {
        ActionStateRegistry { entries: Vec::new() }
    }

    /// The index of the entry holding `id`, if any.
    fn find(&self, id: &String) -> (r: Option<usize>)
        ensures
            match r {
                Some(i) => {
                    &&& i < self.entries@.len()
                    &&& self.entries@[i as int].0@ == id@
                    &&& forall|k: int| 0 <= k < i ==> self.entries@[k].0@ != id@
                    &&& self.spec_get(id@) == self.entries@[i as int].1
                },
                None => {
                    &&& !spec_has_key(self.entries@, id@)
                    &&& self.spec_get(id@) == ActionState::idle()
                },
            },
    {
        let ghost s = self.entries@;
        proof {
            assert(s.skip(0) =~= s);
        }
        let mut i: usize = 0;
        while i < self.entries.len()
            invariant
                i <= s.len(),
                s == self.entries@,
                forall|k: int| 0 <= k < i ==> s[k].0@ != id@,
                spec_lookup(s, id@) == spec_lookup(s.skip(i as int), id@),
                spec_has_key(s, id@) == spec_has_key(s.skip(i as int), id@),
            decreases s.len() - i,
        {
            if self.entries[i].0 == *id {
                return Some(i);
            }
            proof {
                assert(s.skip(i as int).drop_first() =~= s.skip(i as int + 1));
            }
            i = i + 1;
        }
        proof {
            assert(s.skip(s.len() as int) =~= Seq::<(String, ActionState)>::empty());
        }
        None
    }

    /// The action state of an id. Never blocks; an id never touched
    /// reads as idle.
    pub fn get(&self, id: &String) -> (r: ActionState)
        ensures
            r == self.spec_get(id@),
    {
        match self.find(id) {
            Some(i) => self.entries[i].1,
            None => ActionState::default(),
        }
    }

    /// Whether any tracked flag is set for an id.
    pub fn busy(&self, id: &String) -> (r: bool)
        ensures
            r == self.spec_get(id@).busy_spec(),
    {
        self.get(id).busy()
    }

    /// Atomic compare-and-set acquisition of a flag: fails with a busy
    /// error when the flag is already held, preventing two concurrent
    /// operations of the same kind on the same resource; otherwise sets
    /// the flag and leaves every other id untouched.
    pub fn acquire(&mut self, id: &String, flag: ActionFlag) -> (r: Result<(), BusyError>)
        requires
            old(self).wf(),
        ensures
            final(self).wf(),
            old(self).spec_get(id@).flag_set(flag) ==> r is Err && *final(self) == *old(self),
            !old(self).spec_get(id@).flag_set(flag) ==> {
                &&& r is Ok
                &&& final(self).spec_get(id@) == old(self).spec_get(id@).with_flag(flag, true)
                &&& forall|other: Seq<char>|
                    other != id@ ==> final(self).spec_get(other) == old(self).spec_get(other)
            },
    {
        let ghost s = self.entries@;
        match self.find(id) {
            Some(i) => {
                let state = self.entries[i].1;
                if state.busy_flag(flag) {
                    Err(BusyError {})
                } else {
                    let updated = state.set_flag(flag);
                    let key = self.entries[i].0.clone();
                    self.entries[i] = (key, updated);
                    proof {
                        lemma_lookup_update(s, i as int, self.entries@[i as int], id@);
                        assert forall|a: int, b: int|
                            0 <= a < b < self.entries@.len() implies self.entries@[a].0@
                            != self.entries@[b].0@ by {
                            assert(s[a].0@ != s[b].0@);
                        }
                    }
                    Ok(())
                }
            },
            None => {
                let state = ActionState::default().set_flag(flag);
                self.entries.push((id.clone(), state));
                proof {
                    lemma_lookup_push(s, self.entries@[s.len() as int], id@);
                    lemma_has_key_index(s, id@);
                    assert forall|a: int, b: int|
                        0 <= a < b < self.entries@.len() implies self.entries@[a].0@
                        != self.entries@[b].0@ by {
                        if b < s.len() {
                            assert(s[a].0@ != s[b].0@);
                        } else {
                            assert(self.entries@[b].0@ == id@);
                            assert(s[a].0@ != id@);
                        }
                    }
                }
                Ok(())
            },
        }
    }

    /// Unconditional, idempotent release of a flag: clears it for the
    /// id and leaves every other id untouched. Safe to call on every
    /// exit path, held or not.
    pub fn release(&mut self, id: &String, flag: ActionFlag)
        requires
            old(self).wf(),
        ensures
            final(self).wf(),
            final(self).spec_get(id@) == old(self).spec_get(id@).with_flag(flag, false),
            forall|other: Seq<char>|
                other != id@ ==> final(self).spec_get(other) == old(self).spec_get(other),
    {
        let ghost s = self.entries@;
        match self.find(id) {
            Some(i) => {
                let state = self.entries[i].1;
                let updated = state.clear_flag(flag);
                let key = self.entries[i].0.clone();
                self.entries[i] = (key, updated);
                proof {
                    lemma_lookup_update(s, i as int, self.entries@[i as int], id@);
                    assert forall|a: int, b: int|
                        0 <= a < b < self.entries@.len() implies self.entries@[a].0@
                        != self.entries@[b].0@ by {
                        assert(s[a].0@ != s[b].0@);
                    }
                }
            },
            None => {
                proof {
                    assert(old(self).spec_get(id@).with_flag(flag, false)
                        == ActionState::idle());
                }
            },
        }
    }
}

impl ActionState {
    /// Whether the given flag is set.
    pub fn busy_flag(&self, flag: ActionFlag) -> (r: bool)
        ensures
            r == self.flag_set(flag),
    {
        match flag {
            ActionFlag::Syncing => self.syncing,
            ActionFlag::Deploying => self.deploying,
        }
    }

    /// This record with the given flag set.
    pub fn set_flag(self, flag: ActionFlag) -> (r: ActionState)
        ensures
            r == self.with_flag(flag, true),
    {
        match flag {
            ActionFlag::Syncing => ActionState { syncing: true, ..self },
            ActionFlag::Deploying => ActionState { deploying: true, ..self },
        }
    }

    /// This record with the given flag cleared.
    pub fn clear_flag(self, flag: ActionFlag) -> (r: ActionState)
        ensures
            r == self.with_flag(flag, false),
    {
        match flag {
            ActionFlag::Syncing => ActionState { syncing: false, ..self },
            ActionFlag::Deploying => ActionState { deploying: false, ..self },
        }
    }
}

/// Whether an acquisition of the flag for the id would succeed.
pub open spec fn can_acquire(reg: ActionStateRegistry, id: Seq<char>, flag: ActionFlag) -> bool {
    !reg.spec_get(id).flag_set(flag)
}

/// Law: acquisition is mutually exclusive. When one caller's
/// acquisition of a flag succeeds, any second acquisition of the same
/// flag for the same id against the resulting registry fails busy —
/// two racing callers get exactly one success.
pub proof fn lemma_acquire_mutual_exclusion(
    pre: ActionStateRegistry,
    post: ActionStateRegistry,
    id: Seq<char>,
    flag: ActionFlag,
)
    requires
        can_acquire(pre, id, flag),
        post.spec_get(id) == pre.spec_get(id).with_flag(flag, true),
    ensures
        !can_acquire(post, id, flag),
{
}

/// Law: release re-enables acquisition. After a release of the flag for
/// the id, a subsequent acquisition of that flag succeeds.
pub proof fn lemma_release_reenables_acquire(
    pre: ActionStateRegistry,
    post: ActionStateRegistry,
    id: Seq<char>,
    flag: ActionFlag,
)
    requires
        post.spec_get(id) == pre.spec_get(id).with_flag(flag, false),
    ensures
        can_acquire(post, id, flag),
{
}

} // verus!
