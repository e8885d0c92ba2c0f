use vstd::prelude::*;
use crate::error::LinkError;

verus! {

/// Chooses the endpoint to connect to among the candidates that resolving the
/// host produced, in their order: the first one. Without any candidate the
/// host counts as unresolvable.
pub fn pick_endpoint<A>(candidates: Vec<A>) -> (r: Result<A, LinkError>)
    ensures
        candidates@.len() == 0 ==> r == Err::<A, LinkError>(LinkError::AddressResolution),
        candidates@.len() > 0 ==> r == Ok::<A, LinkError>(candidates@[0]),
{
    let mut candidates = candidates;
    if candidates.len() == 0 {
        Err(LinkError::AddressResolution)
    } else {
        Ok(candidates.remove(0))
    }
}

} // verus!
