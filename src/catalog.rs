use vstd::prelude::*;

use crate::error::VendorFailure;
use crate::registry::{ProviderRegistry, copy_strings};

verus! {

/// One provider's entry in the model catalog.
#[derive(Clone, Debug)]
pub struct ProviderDescriptor {
    pub name: String,
    pub models: Vec<String>,
}

/// The models a provider contributes for the outcome of its listing call:
/// what it listed, or nothing when the call failed or timed out.
pub open spec fn models_of(outcome: Result<Vec<String>, VendorFailure>) -> Seq<String> {
    match outcome {
        Ok(m) => m@,
        Err(_) => Seq::empty(),
    }
}

/// Merges the outcomes of the per-provider listing calls into the catalog.
///
/// `outcomes[i]` is what the adapter at position `i` of the registry
/// answered. The catalog has one entry per registered provider, in
/// registration order; a failed call gives an empty model list and never
/// aborts the whole.
pub fn aggregate<A>(registry: &ProviderRegistry<A>, outcomes: &Vec<Result<Vec<String>, VendorFailure>>) -> (r: Vec<ProviderDescriptor>)
    requires
        outcomes@.len() == registry.names_spec().len(),
    ensures
        r@.len() == registry.names_spec().len(),
        forall|i: int|
            0 <= i < r@.len() ==> {
                &&& (#[trigger] r@[i]).name@ == registry.names_spec()[i]@
                &&& r@[i].models@ == models_of(outcomes@[i])
            },
{
    let names = registry.list_providers();
    let mut r: Vec<ProviderDescriptor> = Vec::new();
    let mut i: usize = 0;
    while i < names.len()
        invariant
            names@ == registry.names_spec(),
            outcomes@.len() == names@.len(),
            i <= names@.len(),
            r@.len() == i,
            forall|j: int|
                0 <= j < i ==> {
                    &&& (#[trigger] r@[j]).name@ == names@[j]@
                    &&& r@[j].models@ == models_of(outcomes@[j])
                },
        decreases names@.len() - i,
    {
        let models = match &outcomes[i] {
            Ok(m) => copy_strings(m),
            Err(_) => Vec::new(),
        };
        r.push(ProviderDescriptor { name: names[i].clone(), models });
        i = i + 1;
    }
    r
}

/// When one provider's listing times out and the others answer, the
/// catalog still has an entry for every provider: the timed-out one with no
/// models, each other one with exactly what it listed.
pub proof fn lemma_timeout_tolerated(
    outcomes: Seq<Result<Vec<String>, VendorFailure>>,
    t: int,
    catalog: Seq<ProviderDescriptor>,
)
    requires
        0 <= t < outcomes.len(),
        outcomes[t] == Err::<Vec<String>, VendorFailure>(VendorFailure::Timeout),
        catalog.len() == outcomes.len(),
        forall|i: int| 0 <= i < catalog.len() ==> (#[trigger] catalog[i]).models@ == models_of(outcomes[i]),
    ensures
        catalog[t].models@.len() == 0,
        forall|i: int|
            0 <= i < catalog.len() && i != t && outcomes[i] is Ok ==> (#[trigger] catalog[i]).models@
                == outcomes[i]->Ok_0@,
{
    assert(catalog[t].models@ == models_of(outcomes[t]));
}

} // verus!
