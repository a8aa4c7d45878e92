//! Role-gated access decisions. A decision is made afresh for every request
//! and fails closed: anything short of a matching role is a denial.

use vstd::prelude::*;
use crate::roles::Role;
use crate::session::{check_cookie, cookie_claims, opt_view};
use crate::token::JwtService;

verus! {

/// Why access was refused.
#[derive(Debug, Clone, Copy, PartialEq, Eq, Structural)]
pub enum Denial {
    /// None of the held roles is among the required ones.
    NoMatchingRole,
    /// The user store had no user, or no roles, for the subject.
    UserNotFound,
    /// The request carried no valid session.
    InvalidSession,
}

/// The outcome of an access check; never partial.
#[derive(Debug, Clone, Copy, PartialEq, Eq, Structural)]
pub enum Authorization {
    Authorized,
    Unauthorized(Denial),
}

impl Denial {
    pub fn message(&self) -> &'static str {
        match self {
            Denial::NoMatchingRole => "no matching role",
            Denial::UserNotFound => "user not found",
            Denial::InvalidSession => "invalid session",
        }
    }
}

/// Some held role is among the required ones.
pub open spec fn shares_role(held: Seq<Role>, required: Seq<Role>) -> bool {
    exists|i: int| 0 <= i < held.len() && required.contains(#[trigger] held[i])
}

/// Some stored role string names a known role that is among the required ones;
/// strings that name no role are passed over.
pub open spec fn stored_shares_role(stored: Seq<String>, required: Seq<Role>) -> bool {
    exists|i: int|
        0 <= i < stored.len() && (match Role::from_wire((#[trigger] stored[i])@) {
            Some(role) => required.contains(role),
            None => false,
        })
}

/// The decision for a user whose stored roles are `stored` (`None` when the
/// lookup found no user or no roles).
pub open spec fn stored_decision(stored: Option<Seq<String>>, required: Seq<Role>) -> Authorization {
    match stored {
        None => Authorization::Unauthorized(Denial::UserNotFound),
        Some(s) => if s.len() == 0 {
            Authorization::Unauthorized(Denial::UserNotFound)
        } else if stored_shares_role(s, required) {
            Authorization::Authorized
        } else {
            Authorization::Unauthorized(Denial::NoMatchingRole)
        },
    }
}

fn contains_role(roles: &Vec<Role>, role: Role) -> (r: bool)
    ensures
        r == roles@.contains(role),
{
    let mut i: usize = 0;
    while i < roles.len()
        invariant
            i <= roles@.len(),
            forall|j: int| 0 <= j < i ==> roles@[j] != role,
        decreases roles@.len() - i,
    {
        if roles[i] == role {
            return true;
        }
        i = i + 1;
    }
    false
}

/// Authorized exactly when some held role is among the granted ones.
pub fn from_role(roles: Vec<Role>, granted_roles: Vec<Role>) -> (r: Authorization)
    ensures
        r == (if shares_role(roles@, granted_roles@) {
            Authorization::Authorized
        } else {
            Authorization::Unauthorized(Denial::NoMatchingRole)
        }),
{
    let mut i: usize = 0;
    while i < roles.len()
        invariant
            i <= roles@.len(),
            forall|j: int| 0 <= j < i ==> !granted_roles@.contains(#[trigger] roles@[j]),
        decreases roles@.len() - i,
    {
        if contains_role(&granted_roles, roles[i]) {
            return Authorization::Authorized;
        }
        i = i + 1;
    }
    Authorization::Unauthorized(Denial::NoMatchingRole)
}

/// The decision for a subject once the user store has answered: `None` when
/// it found no user. Stored strings that name no role are ignored.
pub fn from_stored_roles(stored: Option<Vec<String>>, granted_roles: Vec<Role>) -> (r: Authorization)
    ensures
        r == stored_decision(
            match stored {
                Some(v) => Some(v@),
                None => None,
            },
            granted_roles@,
        ),
{
    let roles = match stored {
        Some(v) => v,
        None => return Authorization::Unauthorized(Denial::UserNotFound),
    };
    assert(stored == Some(roles));
    if roles.len() == 0 {
        return Authorization::Unauthorized(Denial::UserNotFound);
    }
    let mut i: usize = 0;
    while i < roles.len()
        invariant
            stored == Some(roles),
            roles@.len() > 0,
            i <= roles@.len(),
            forall|j: int|
                0 <= j < i ==> !(match Role::from_wire((#[trigger] roles@[j])@) {
                    Some(role) => granted_roles@.contains(role),
                    None => false,
                }),
        decreases roles@.len() - i,
    {
        match Role::parse(roles[i].as_str()) {
            Ok(role) => {
                if contains_role(&granted_roles, role) {
                    assert(stored_shares_role(roles@, granted_roles@)) by {
                        let k = i as int;
                        assert(Role::from_wire(roles@[k]@) == Some(role));
                    }
                    return Authorization::Authorized;
                }
            },
            Err(_) => {},
        }
        i = i + 1;
    }
    Authorization::Unauthorized(Denial::NoMatchingRole)
}

/// The subject whose stored roles decide a request that carries
/// `cookie_header`, checked at time `now`. A missing cookie, a bad token or
/// an expired one all end in the same denial.
pub fn session_subject(cookie_header: Option<&str>, jwt: &JwtService, now: i64) -> (r: Result<String, Authorization>)
    ensures
        r is Ok <==> cookie_claims(opt_view(cookie_header), jwt.key(), now) is Some,
        r matches Ok(sub) ==> cookie_claims(opt_view(cookie_header), jwt.key(), now) matches Some((s, _))
            && s == sub@,
        r matches Err(d) ==> d == Authorization::Unauthorized(Denial::InvalidSession),
{
    match check_cookie(cookie_header, jwt, now) {
        Ok(claims) => Ok(claims.sub),
        Err(_) => Err(Authorization::Unauthorized(Denial::InvalidSession)),
    }
}

} // verus!
