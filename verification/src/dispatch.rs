//! Dispatch classification: what the execution sandbox reports for one
//! message becomes either success, an instance-acquisition error, or a
//! handler error. A single attempt, no retries at this layer.

use vstd::prelude::*;

use crate::errors::DispatchError;

verus! {

/// Classifies one dispatch attempt from what the sandbox reported: the
/// outer result is instance acquisition for the component, the inner one
/// is the handler's own verdict on the payload. Acquisition failure
/// becomes an instance error, a handler verdict of failure becomes a
/// handler error wrapping the handler's message, and only a clean run is
/// success.
pub fn classify_dispatch(outcome: Result<Result<(), String>, String>) -> (r: Result<
    (),
    DispatchError,
>)
    ensures
        outcome matches Err(m) ==> (r matches Err(DispatchError::Instance { message })
            && message@ == m@),
        outcome matches Ok(Err(m)) ==> (r matches Err(DispatchError::Handler { message })
            && message@ == m@),
        outcome matches Ok(Ok(_)) ==> r is Ok,
{
    match outcome {
        Err(m) => Err(DispatchError::Instance { message: m }),
        Ok(Err(m)) => Err(DispatchError::Handler { message: m }),
        Ok(Ok(())) => Ok(()),
    }
}

} // verus!
