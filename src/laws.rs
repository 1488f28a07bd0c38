//! Facts that hold across the endpoints.
use crate::call::{is_success, judged, Shape, StatusPolicy, Call};
use crate::client::{plans_get, plans_post};
use crate::credentials::{is_given, GlobalVars};
use crate::error::{CredentialField, HaError};
use vstd::prelude::*;

verus! {

/// A call that names no credential, on a client without fallback, fails
/// with a missing credential before any request is planned, whatever the
/// endpoint.
pub proof fn no_credentials_no_call(vars: GlobalVars, ha_url: Option<String>, ha_token: Option<String>)
    requires
        !is_given(ha_url),
        !is_given(ha_token),
        vars.url is None,
        vars.token is None,
    ensures
        forall|r: Result<Call, HaError>, path: Seq<char>, policy: StatusPolicy, shape: Shape|
            plans_get(r, vars, ha_url, ha_token, path, policy, shape) ==> r == Err::<Call, HaError>(
                HaError::MissingCredential(CredentialField::Url),
            ),
        forall|r: Result<Call, HaError>, path: Seq<char>, policy: StatusPolicy, shape: Shape|
            plans_post(r, vars, ha_url, ha_token, path, policy, shape) ==> r == Err::<Call, HaError>(
                HaError::MissingCredential(CredentialField::Url),
            ),
{
}

/// On an endpoint that checks the status, a status outside `200..=299`
/// gives exactly that status as the error, whatever the body held; on one
/// that does not, the body comes back as it decoded.
pub proof fn status_decides_before_body<T>(status: u16, decoded: Result<T, HaError>)
    ensures
        !is_success(status) ==> judged(StatusPolicy::Checked, status, decoded) == Err::<T, HaError>(
            HaError::HttpError(status),
        ),
        is_success(status) ==> judged(StatusPolicy::Checked, status, decoded) == decoded,
        judged(StatusPolicy::Unchecked, status, decoded) == decoded,
{
}

/// The sum of the lengths of the inner lists.
pub open spec fn total_len<T>(s: Seq<Seq<T>>) -> nat
    decreases s.len(),
{
    if s.len() == 0 {
        0
    } else {
        s[0].len() + total_len(s.drop_first())
    }
}

/// Joining lists keeps every record: the length of the result is the sum of
/// the lengths of the inner lists.
pub proof fn flatten_len<T>(s: Seq<Seq<T>>)
    ensures
        s.flatten().len() == total_len(s),
    decreases s.len(),
{
    if s.len() > 0 {
        flatten_len(s.drop_first());
    }
}

/// Joining lists keeps their order: the records of the first list come
/// first, in their order, and the rest follow.
pub proof fn flatten_order<T>(s: Seq<Seq<T>>)
    requires
        s.len() > 0,
    ensures
        s.flatten().subrange(0, s[0].len() as int) == s[0],
        s.flatten().subrange(s[0].len() as int, s.flatten().len() as int) == s.drop_first().flatten(),
{
    assert(s.flatten() == s[0] + s.drop_first().flatten());
    assert(s.flatten().subrange(0, s[0].len() as int) =~= s[0]);
    assert(s.flatten().subrange(s[0].len() as int, s.flatten().len() as int) =~= s.drop_first().flatten());
}

} // verus!
