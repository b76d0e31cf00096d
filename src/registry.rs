use vstd::prelude::*;

use crate::error::{CanonicalError, ErrorKind};

verus! {

/// Copies a list of strings.
pub fn copy_strings(v: &Vec<String>) -> (r: Vec<String>)
    ensures
        r@ == v@,
{
    let mut r: Vec<String> = Vec::new();
    let mut i: usize = 0;
    while i < v.len()
        invariant
            i <= v@.len(),
            r@ == v@.subrange(0, i as int),
        decreases v@.len() - i,
    {
        r.push(v[i].clone());
        i = i + 1;
        assert(r@ =~= v@.subrange(0, i as int));
    }
    assert(v@.subrange(0, v@.len() as int) =~= v@);
    r
}

/// The configured adapters, each under a unique name, in registration order.
pub struct ProviderRegistry<A> {
    names: Vec<String>,
    adapters: Vec<A>,
}

impl<A> ProviderRegistry<A> {
    pub closed spec fn names_spec(&self) -> Seq<String> {
        self.names@
    }

    pub closed spec fn adapters_spec(&self) -> Seq<A> {
        self.adapters@
    }

    /// No two adapters share a name, and each name has one adapter.
    pub open spec fn wf(&self) -> bool {
        &&& self.names_spec().len() == self.adapters_spec().len()
        &&& forall|i: int, j: int|
            0 <= i < j < self.names_spec().len() ==> (#[trigger] self.names_spec()[i])@
                != (#[trigger] self.names_spec()[j])@
    }

    /// Whether some adapter is registered under `name`.
    pub open spec fn has(&self, name: Seq<char>) -> bool {
        exists|i: int| 0 <= i < self.names_spec().len() && (#[trigger] self.names_spec()[i])@ == name
    }

    pub fn new() -> (r: ProviderRegistry<A>)
        ensures
            r.wf(),
            r.names_spec().len() == 0,
    {
        ProviderRegistry { names: Vec::new(), adapters: Vec::new() }
    }

    /// The position of `name`, if registered.
    fn find(&self, name: &String) -> (r: Option<usize>)
        requires
            self.wf(),
        ensures
            r matches Some(i) ==> i < self.names_spec().len() && self.names_spec()[i as int]@
                == name@,
            r is None ==> !self.has(name@),
    {
        let mut i: usize = 0;
        while i < self.names.len()
            invariant
                i <= self.names@.len(),
                forall|j: int| 0 <= j < i ==> (#[trigger] self.names@[j])@ != name@,
            decreases self.names@.len() - i,
        {
            if self.names[i] == *name {
                return Some(i);
            }
            i = i + 1;
        }
        None
    }

    /// Adds an adapter under `name`; a name that is already taken is
    /// refused and the registry is left as it was.
    pub fn register(&mut self, name: String, adapter: A) -> (r: Result<(), CanonicalError>)
        requires
            old(self).wf(),
        ensures
            final(self).wf(),
            r is Ok <==> !old(self).has(name@),
            r is Ok ==> final(self).names_spec() == old(self).names_spec().push(name)
                && final(self).adapters_spec() == old(self).adapters_spec().push(adapter),
            r matches Err(e) ==> {
                &&& e.kind == ErrorKind::InvalidRequest
                &&& !e.retryable
                &&& *final(self) == *old(self)
            },
    {
        match self.find(&name) {
            Some(_) => Err(
                CanonicalError::new(
                    ErrorKind::InvalidRequest,
                    String::from_str("provider name already registered"),
                ),
            ),
            None => {
                self.names.push(name);
                self.adapters.push(adapter);
                Ok(())
            },
        }
    }

    /// The adapter registered under `name`, or `Unsupported`.
    pub fn resolve(&self, name: &String) -> (r: Result<&A, CanonicalError>)
        requires
            self.wf(),
        ensures
            r is Ok <==> self.has(name@),
            r matches Ok(a) ==> exists|i: int|
                0 <= i < self.names_spec().len() && (#[trigger] self.names_spec()[i])@ == name@
                    && *a == self.adapters_spec()[i],
            r matches Err(e) ==> e.kind == ErrorKind::Unsupported && !e.retryable,
    {
        match self.find(name) {
            Some(i) => Ok(&self.adapters[i]),
            None => Err(
                CanonicalError::new(ErrorKind::Unsupported, String::from_str("unknown provider")),
            ),
        }
    }

    /// The registered names, in registration order.
    pub fn list_providers(&self) -> (r: Vec<String>)
        ensures
            r@ == self.names_spec(),
    {
        copy_strings(&self.names)
    }

    /// The registered adapters, in the order of `list_providers`.
    pub fn adapters(&self) -> (r: &Vec<A>)
        ensures
            r@ == self.adapters_spec(),
    {
        &self.adapters
    }

    pub fn len(&self) -> (r: usize)
        ensures
            r == self.names_spec().len(),
    {
        self.names.len()
    }
}

} // verus!
