//! A versioned store of resources addressed by small copyable handles.
use std::marker::PhantomData;
use vstd::prelude::*;

verus! {

/// A handle to a resource kept by a resource manager.
#[derive(Debug, Hash)]
pub struct ResourceRef<R> {
    pub index: usize,
    pub version: u64,
    pub _resource_type: PhantomData<R>,
}

impl<R> Clone for ResourceRef<R> {
    fn clone(&self) -> (r: Self)
        ensures
            r == *self,
    {
        ResourceRef { index: self.index, version: self.version, _resource_type: self._resource_type }
    }
}

impl<R> Copy for ResourceRef<R> {
}

impl<R> PartialEq for ResourceRef<R> {
    fn eq(&self, other: &Self) -> (r: bool) {
        self.index == other.index && self.version == other.version
    }
}

impl<R> vstd::std_specs::cmp::PartialEqSpecImpl for ResourceRef<R> {
    open spec fn obeys_eq_spec() -> bool {
        true
    }

    open spec fn eq_spec(&self, other: &Self) -> bool {
        self.index == other.index && self.version == other.version
    }
}

impl<R> Eq for ResourceRef<R> {
}

impl<R> ResourceRef<R> {
    pub fn new(version: usize, index: usize) -> (r: Self)
        ensures
            r.index == index,
            r.version == version,
    {
        Self { version: version as u64, index, _resource_type: PhantomData }
    }
}


/// Read access to the resources of a store, by handle.
pub trait ResourceManager<R> {
    /// Whether the store answers `resource_ref` with a resource.
    spec fn holds(&self, resource_ref: ResourceRef<R>) -> bool;

    /// The resource that the store answers `resource_ref` with, where it holds one.
    spec fn resource(&self, resource_ref: ResourceRef<R>) -> R;

    fn get(&self, resource_ref: ResourceRef<R>) -> (r: Option<&R>)
        ensures
            r.is_some() == self.holds(resource_ref),
            r.is_some() ==> *r.unwrap() == self.resource(resource_ref),
    ;

    /// The resource for `resource_ref`, or `default` where the store holds none.
    fn get_default<'a>(&'a self, resource_ref: ResourceRef<R>, default: &'a R) -> (r: &'a R)
        ensures
            self.holds(resource_ref) ==> *r == self.resource(resource_ref),
            !self.holds(resource_ref) ==> *r == *default,
    {
        match self.get(resource_ref) {
            Some(v) => v,
            None => default,
        }
    }
}

struct VersionedResource<R> {
    version: u64,
    value: R,
}

/// A store that hands out one handle per added resource, numbered in the
/// order the resources were added.
pub struct BaseResourceManager<R> {
    resources: Vec<VersionedResource<R>>,
}

impl<R> View for BaseResourceManager<R> {
    /// The stored resources, in the order they were added.
    type V = Seq<R>;

    closed spec fn view(&self) -> Seq<R> {
        self.resources@.map_values(|v: VersionedResource<R>| v.value)
    }
}

impl<R> BaseResourceManager<R> {
    /// The version recorded with the resource at `index`.
    pub closed spec fn version_at(&self, index: int) -> u64 {
        self.resources@[index].version
    }

    pub fn new() -> (r: Self)
        ensures
            r@ == Seq::<R>::empty(),
    {
        Self { resources: Vec::new() }
    }

    /// Stores `value` and returns the handle under which it can be read back.
    pub fn add(&mut self, value: R) -> (r: ResourceRef<R>)
        ensures
            final(self)@ == old(self)@.push(value),
            r.index == old(self)@.len(),
            r.version == 0,
            final(self).version_at(r.index as int) == 0,
            forall|i: int| 0 <= i < old(self)@.len() ==> final(self).version_at(i) == old(self).version_at(i),
    {
        let r = ResourceRef::new(0, self.resources.len());
        self.resources.push(VersionedResource { version: r.version, value });
        proof {
            assert(self@ =~= old(self)@.push(value));
        }
        r
    }
}

impl<R> ResourceManager<R> for BaseResourceManager<R> {
    /// A handle is answered by position alone; its version is not compared.
    open spec fn holds(&self, resource_ref: ResourceRef<R>) -> bool {
        resource_ref.index < self@.len()
    }

    open spec fn resource(&self, resource_ref: ResourceRef<R>) -> R {
        self@[resource_ref.index as int]
    }

    fn get(&self, resource_ref: ResourceRef<R>) -> (r: Option<&R>) {
        if resource_ref.index < self.resources.len() {
            Some(&self.resources[resource_ref.index].value)
        } else {
            None
        }
    }
}

/// Reading back through the handle that `add` returned gives the added
/// resource, and every handle issued before still gives what it gave.
pub proof fn lemma_add_then_get<R>(
    before: BaseResourceManager<R>,
    after: BaseResourceManager<R>,
    value: R,
    added: ResourceRef<R>,
    earlier: ResourceRef<R>,
)
    requires
        after@ == before@.push(value),
        added.index == before@.len(),
    ensures
        after.holds(added),
        after.resource(added) == value,
        before.holds(earlier) ==> after.holds(earlier) && after.resource(earlier) == before.resource(earlier),
{
}

/// Handles are answered by position: two handles with the same index give
/// the same answer, whatever their versions.
pub proof fn lemma_lookup_ignores_version<R>(
    m: BaseResourceManager<R>,
    a: ResourceRef<R>,
    b: ResourceRef<R>,
)
    requires
        a.index == b.index,
    ensures
        m.holds(a) == m.holds(b),
        m.holds(a) ==> m.resource(a) == m.resource(b),
{
}

} // verus!
