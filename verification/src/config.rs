//! Shared configuration field types: provider references carried in
//! list-valued config fields, and the scalar-or-list decode policy for
//! backward-compatible list inputs.

use vstd::prelude::*;

verus! {

/// A git provider available on a build machine, identified by domain.
#[derive(Clone, Debug, PartialEq, Eq)]
pub struct GitProvider {
    /// The domain of the provider, eg. `github.com`.
    pub domain: String,
}

impl DeepView for GitProvider {
    type V = Seq<char>;

    open spec fn deep_view(&self) -> Seq<char> {
        self.domain@
    }
}

/// A docker registry available on a build machine, identified by domain.
#[derive(Clone, Debug, PartialEq, Eq)]
pub struct DockerRegistry {
    /// The domain of the registry, eg. `docker.io`.
    pub domain: String,
}

impl DeepView for DockerRegistry {
    type V = Seq<char>;

    open spec fn deep_view(&self) -> Seq<char> {
        self.domain@
    }
}

/// Input shape for list-valued config fields: callers may hand either a
/// single scalar or a full list.
pub enum StringOrList {
    /// A single scalar, coerced to a one-element list.
    One(String),
    /// A full list, taken as is.
    Many(Vec<String>),
}

/// The decode path for list-valued fields: a scalar becomes a
/// one-element list, a list is kept unchanged.
pub fn coerce_string_list(input: StringOrList) -> (r: Vec<String>)
    ensures
        match input {
            StringOrList::One(s) => r@ == seq![s],
            StringOrList::Many(l) => r == l,
        },
{
    match input {
        StringOrList::One(s) => {
            let mut v: Vec<String> = Vec::new();
            v.push(s);
            v
        },
        StringOrList::Many(l) => l,
    }
}

/// Contents equality of two string lists, element by element.
pub fn string_vec_eq(a: &Vec<String>, b: &Vec<String>) -> (r: bool)
    ensures
        r == (a.deep_view() == b.deep_view()),
{
    if a.len() != b.len() {
        assert(a.deep_view().len() != b.deep_view().len());
        return false;
    }
    let mut i: usize = 0;
    while i < a.len()
        invariant
            i <= a.len(),
            a@.len() == b@.len(),
            forall|k: int| 0 <= k < i ==> a.deep_view()[k] == b.deep_view()[k],
        decreases a.len() - i,
    {
        if a[i] != b[i] {
            assert(a.deep_view()[i as int] != b.deep_view()[i as int]);
            return false;
        }
        i = i + 1;
    }
    assert(a.deep_view() =~= b.deep_view());
    true
}

/// Contents equality of two git provider lists, element by element.
pub fn git_provider_vec_eq(a: &Vec<GitProvider>, b: &Vec<GitProvider>) -> (r: bool)
    ensures
        r == (a.deep_view() == b.deep_view()),
{
    if a.len() != b.len() {
        assert(a.deep_view().len() != b.deep_view().len());
        return false;
    }
    let mut i: usize = 0;
    while i < a.len()
        invariant
            i <= a.len(),
            a@.len() == b@.len(),
            forall|k: int| 0 <= k < i ==> a.deep_view()[k] == b.deep_view()[k],
        decreases a.len() - i,
    {
        if a[i].domain != b[i].domain {
            assert(a.deep_view()[i as int] != b.deep_view()[i as int]);
            return false;
        }
        i = i + 1;
    }
    assert(a.deep_view() =~= b.deep_view());
    true
}

/// Contents equality of two docker registry lists, element by element.
pub fn docker_registry_vec_eq(a: &Vec<DockerRegistry>, b: &Vec<DockerRegistry>) -> (r: bool)
    ensures
        r == (a.deep_view() == b.deep_view()),
{
    if a.len() != b.len() {
        assert(a.deep_view().len() != b.deep_view().len());
        return false;
    }
    let mut i: usize = 0;
    while i < a.len()
        invariant
            i <= a.len(),
            a@.len() == b@.len(),
            forall|k: int| 0 <= k < i ==> a.deep_view()[k] == b.deep_view()[k],
        decreases a.len() - i,
    {
        if a[i].domain != b[i].domain {
            assert(a.deep_view()[i as int] != b.deep_view()[i as int]);
            return false;
        }
        i = i + 1;
    }
    assert(a.deep_view() =~= b.deep_view());
    true
}

} // verus!
