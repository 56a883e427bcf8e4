//! Service endpoints: the liveness check, and the endpoints that exist only
//! in test deployments (resetting the database, handing out roles).

use vstd::prelude::*;
use crate::migrations::{rollback_error_message, RollbackAndReapplyError};
use crate::models::PingResponse;
use crate::responses::{body_reply, EndpointError, EndpointResult, Reply, ReplyBody, STATUS_OK};
use crate::roles::{Role, RoleSet};

verus! {

/// The reply to a ping: the server is up.
pub fn ping_reply() -> (r: EndpointResult)
    ensures
        r == Ok::<Reply, EndpointError>(body_reply(STATUS_OK, ReplyBody::Ping(PingResponse { ok: true }))),
{
    Ok(Reply::with_body(STATUS_OK, ReplyBody::Ping(PingResponse { ok: true })))
}

/// The reply telling that the testing endpoints are enabled.
pub fn testing_enabled_reply() -> (r: EndpointResult)
    ensures
        r == Ok::<Reply, EndpointError>(body_reply(STATUS_OK, ReplyBody::Empty)),
{
    Ok(Reply::ok_empty())
}

/// The reply after resetting the database: `200 OK`, or an internal error
/// describing why the migrations could not be rolled back and re-applied.
pub fn reset_server_reply(outcome: &Result<(), RollbackAndReapplyError>) -> (r: EndpointResult)
    ensures
        *outcome is Ok ==> r == Ok::<Reply, EndpointError>(body_reply(STATUS_OK, ReplyBody::Empty)),
        *outcome matches Err(e) ==> (r matches Err(EndpointError::InternalGenericError { description })
            && description@ == rollback_error_message(e)),
{
    match outcome {
        Ok(()) => Ok(Reply::ok_empty()),
        Err(e) => Err(EndpointError::internal_error(e.message())),
    }
}

/// The roles given to a user by the testing endpoint: administrator.
pub fn administrator_role_set() -> (r: RoleSet)
    ensures
        r@ == set![Role::Administrator],
{
    let r = RoleSet::from_roles(&[Role::Administrator]);
    assert(seq![Role::Administrator].to_set() =~= set![Role::Administrator]) by {
        assert(seq![Role::Administrator][0] == Role::Administrator);
    }
    r
}

/// The roles every user starts with: user.
pub fn default_user_role_set() -> (r: RoleSet)
    ensures
        r@ == set![Role::User],
{
    let r = RoleSet::from_roles(&[Role::User]);
    assert(seq![Role::User].to_set() =~= set![Role::User]) by {
        assert(seq![Role::User][0] == Role::User);
    }
    r
}

/// The roles to give a user whose roles were all removed, to bring them back
/// to the roles every user starts with.
pub fn roles_after_reset(remaining: &RoleSet) -> (r: RoleSet)
    requires
        remaining@ == Set::<Role>::empty(),
    ensures
        r@ == set![Role::User],
{
    default_user_role_set()
}

} // verus!
