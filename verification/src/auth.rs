//! Who is calling: the account behind the credentials of one request.

use crate::response::{ErrorResponse, StatusCode};
use crate::session::{Session, SessionData};
use vstd::prelude::*;

verus! {

/// The identity of an account.
#[derive(Clone, Copy, Debug, PartialEq, Eq, Structural)]
pub struct AccountId(pub i32);

/// The account that a request acts for. `bearer` is `None` where the request
/// has no `Authorization` header, and otherwise holds what the verification
/// of that header gave. A header, once present, decides alone: the session is
/// consulted only for requests without one.
pub open spec fn resolved_account(
    bearer: Option<Option<AccountId>>,
    session: SessionData,
) -> Option<AccountId> {
    match bearer {
        Some(verdict) => verdict,
        None => match session.account_id {
            Some(id) => Some(AccountId(id)),
            None => None,
        },
    }
}

/// A bearer credential, where a request carries one, decides alone who the
/// caller is, whatever the session holds. Only a request without one is
/// identified by the account in its session.
pub proof fn law_bearer_takes_precedence(verdict: Option<AccountId>, session: SessionData)
    ensures
        resolved_account(Some(verdict), session) == verdict,
        resolved_account(None, session) == (match session.account_id {
            Some(id) => Some(AccountId(id)),
            None => None,
        }),
{
}

/// Verifies the value of an `Authorization` header. No token scheme is in
/// place, so every value is rejected.
pub fn verify_bearer(authorization: &str) -> (verdict: Option<AccountId>)
    ensures
        verdict is None,
{
    None
}

impl AccountId {
    /// Resolves the account from the verdict on the bearer credential, if the
    /// request carries one, and the session.
    pub fn resolve(bearer: Option<Option<AccountId>>, session: &Session) -> (account:
        Option<AccountId>)
        ensures
            account == resolved_account(bearer, session@.data),
    {
        match bearer {
            Some(verdict) => verdict,
            None => match session.get().account_id {
                Some(id) => Some(AccountId(id)),
                None => None,
            },
        }
    }

    /// The account of a request that may be anonymous: `None` where no
    /// identity is established.
    pub fn from_request_optional(authorization: Option<&str>, session: &Session) -> (account:
        Option<AccountId>)
        ensures
            account == (match authorization {
                Some(_) => None,
                None => resolved_account(None, session@.data),
            }),
    {
        let bearer = match authorization {
            Some(value) => Some(verify_bearer(value)),
            None => None,
        };
        AccountId::resolve(bearer, session)
    }

    /// The account of a request that must be authenticated: a request
    /// without an established identity is refused as unauthorized.
    pub fn from_request(authorization: Option<&str>, session: &Session) -> (account: Result<
        AccountId,
        ErrorResponse,
    >)
        ensures
            match account {
                Ok(id) => authorization is None && session@.data.account_id == Some(id.0),
                Err(refusal) => {
                    &&& authorization is Some || session@.data.account_id is None
                    &&& refusal.has(StatusCode::Unauthorized, "Not authorized."@)
                },
            },
    {
        match AccountId::from_request_optional(authorization, session) {
            Some(id) => Ok(id),
            None => Err(ErrorResponse::from(StatusCode::Unauthorized, "Not authorized.")),
        }
    }
}

} // verus!
