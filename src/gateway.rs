use vstd::prelude::*;

use crate::error::{
    CanonicalError, ErrorKind, VendorFailure, failure_message, kind_of, retryable_spec, translate,
};
use crate::message::{LlmRequest, LlmResponse};
use crate::normalize::{ValidRequest, fault_message, fault_of, normalize, validated_from};
use crate::registry::ProviderRegistry;

verus! {

/// Resolves the provider and validates the request: the two checks that run
/// before any adapter is called. Only on `Ok` is there an adapter to call.
pub fn prepare_chat<'a, A>(registry: &'a ProviderRegistry<A>, provider: &String, req: &LlmRequest) -> (r: Result<(&'a A, ValidRequest), CanonicalError>)
    requires
        registry.wf(),
    ensures
        r is Ok <==> registry.has(provider@) && fault_of(*req) is None,
        !registry.has(provider@) ==> (r matches Err(e) && e.kind == ErrorKind::Unsupported
            && !e.retryable),
        registry.has(provider@) && fault_of(*req) is Some ==> (r matches Err(e) && e.kind
            == ErrorKind::InvalidRequest && !e.retryable && e.message@ == fault_message(
            fault_of(*req)->0,
        )),
        r matches Ok((a, v)) ==> validated_from(v, *req) && exists|i: int|
            0 <= i < registry.names_spec().len() && (#[trigger] registry.names_spec()[i])@
                == provider@ && *a == registry.adapters_spec()[i],
{
    let adapter = match registry.resolve(provider) {
        Ok(a) => a,
        Err(e) => {
            return Err(e);
        },
    };
    match normalize(req) {
        Ok(v) => Ok((adapter, v)),
        Err(e) => Err(e),
    }
}

/// Turns what an adapter's chat call gave back into the gateway's answer:
/// a response passes through, a failure is translated.
pub fn finish_chat(outcome: Result<LlmResponse, VendorFailure>) -> (r: Result<
    LlmResponse,
    CanonicalError,
>)
    ensures
        outcome matches Ok(resp) ==> r == Ok::<LlmResponse, CanonicalError>(resp),
        outcome matches Err(f) ==> (r matches Err(e) && e.kind == kind_of(f) && e.retryable
            == retryable_spec(kind_of(f)) && e.message@ == failure_message(f)),
{
    match outcome {
        Ok(resp) => Ok(resp),
        Err(f) => Err(translate(f)),
    }
}

/// Streaming is only attempted on an adapter that offers it.
pub fn check_streaming(supported: bool) -> (r: Result<(), CanonicalError>)
    ensures
        r is Ok <==> supported,
        r matches Err(e) ==> e.kind == ErrorKind::Unsupported && !e.retryable,
{
    if supported {
        Ok(())
    } else {
        Err(
            CanonicalError::new(
                ErrorKind::Unsupported,
                String::from_str("provider does not offer streaming"),
            ),
        )
    }
}

} // verus!
