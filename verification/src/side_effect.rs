//! The production side-effect entry: callers hand in only a grant id; the
//! grant itself is loaded from the store and checked against the request.

use vstd::prelude::*;
use crate::gateway::{grant_use_failure, verify_loaded_grant, GatewayError, GrantUseRequest};
use crate::grant::ExecutionGrant;
use crate::identity::GrantId;
use crate::ports::OrchestrationReadPort;
use crate::text::str_eq;

verus! {

/// What an admitted side effect may do.
#[derive(Debug, Clone)]
pub struct SideEffectAdmission {
    pub grant_id: String,
    pub attempt_id: String,
    pub command: String,
}

/// Loads a grant by id through the persistent gateway: a missing grant is
/// `GrantNotFound`, a storage failure is `StorageError`, and a loaded grant
/// is always the one with that id.
pub fn load_grant_by_id<P: OrchestrationReadPort>(store: &P, grant_id: &GrantId) -> (r: Result<
    ExecutionGrant,
    GatewayError,
>)
    ensures
        r matches Err(GatewayError::GrantNotFound(id)) ==> id@ == grant_id.0@,
        r is Err ==> (r matches Err(GatewayError::GrantNotFound(_))) || (r matches Err(
            GatewayError::StorageError(_),
        )),
        r matches Ok(g) ==> g.grant_id.0@ == grant_id.0@,
{
    match store.load_grant(grant_id.as_str()) {
        Err(e) => Err(GatewayError::StorageError(e)),
        Ok(None) => Err(GatewayError::GrantNotFound(String::from_str(grant_id.as_str()))),
        Ok(Some(g)) => {
            // The store is keyed by grant id; a record under another id is
            // no grant with this one.
            if !str_eq(g.grant_id.as_str(), grant_id.as_str()) {
                return Err(GatewayError::GrantNotFound(String::from_str(grant_id.as_str())));
            }
            Ok(g)
        },
    }
}

/// Admits one side effect on the grant stored under `grant_id`, provided the
/// grant passes every check of `verify_loaded_grant` against the request.
pub fn admit_granted_side_effect<P: OrchestrationReadPort>(
    store: &P,
    grant_id: &GrantId,
    request: GrantUseRequest,
) -> (r: Result<SideEffectAdmission, GatewayError>)
    ensures
        r matches Ok(a) ==> a.command@ == request.command@,
        r matches Err(GatewayError::GrantNotFound(id)) ==> id@ == grant_id.0@,
{
    let grant = load_grant_by_id(store, grant_id)?;
    verify_loaded_grant(&grant, &request)?;
    Ok(
        SideEffectAdmission {
            grant_id: String::from_str(grant.grant_id.as_str()),
            attempt_id: String::from_str(grant.attempt_id.as_str()),
            command: request.command,
        },
    )
}

/// Admission of a loaded grant, all checks passed: the admission names the
/// loaded grant, its attempt, and the requested command.
pub fn admit_loaded_grant(grant: &ExecutionGrant, request: GrantUseRequest) -> (r: Result<
    SideEffectAdmission,
    GatewayError,
>)
    ensures
        r is Ok <==> grant_use_failure(*grant, request) == 0,
        r matches Ok(a) ==> a.grant_id@ == grant.grant_id.0@ && a.attempt_id@
            == grant.attempt_id.0@ && a.command@ == request.command@,
{
    verify_loaded_grant(grant, &request)?;
    Ok(
        SideEffectAdmission {
            grant_id: String::from_str(grant.grant_id.as_str()),
            attempt_id: String::from_str(grant.attempt_id.as_str()),
            command: request.command,
        },
    )
}

} // verus!
