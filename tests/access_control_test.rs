use std::str::FromStr;
use auth_api::access_control::{from_role, from_stored_roles, Authorization, Denial};
use auth_api::roles::Role;

#[test]
#[should_panic]
pub fn verify_from_role_test() {
    let valid_role = vec![Role::USER];
    let granted_role = vec![Role::USER];

    let res = match from_role(valid_role, granted_role.clone()) {
        Authorization::Authorized => true,
        Authorization::Unauthorized(_) => false,
    };
    assert!(res);

    let invalid_role = vec![Role::from_str("INVALID_ROLE").unwrap()];

    let res = match from_role(invalid_role, granted_role.clone()) {
        Authorization::Authorized => true,
        Authorization::Unauthorized(_) => false,
    };
    assert!(!res);

    let empty_role = vec![];

    let res = match from_role(empty_role, granted_role.clone()) {
        Authorization::Authorized => true,
        Authorization::Unauthorized(_) => false,
    };
    assert!(!res);
}

#[test]
fn decide_scenarios() {
    assert_eq!(from_role(vec![Role::ADMIN], vec![Role::ADMIN, Role::USER]), Authorization::Authorized);
    assert_eq!(
        from_role(vec![Role::USER], vec![Role::ADMIN]),
        Authorization::Unauthorized(Denial::NoMatchingRole)
    );
    assert_eq!(from_role(vec![], vec![Role::ADMIN]), Authorization::Unauthorized(Denial::NoMatchingRole));
}

#[test]
fn decide_with_duplicates_and_empty_requirement() {
    assert_eq!(from_role(vec![Role::USER, Role::USER, Role::ADMIN], vec![Role::ADMIN]), Authorization::Authorized);
    assert_eq!(from_role(vec![Role::ADMIN], vec![]), Authorization::Unauthorized(Denial::NoMatchingRole));
}

#[test]
fn stored_garbage_role_is_skipped() {
    let stored = vec![String::from("ROLE_ADMIN"), String::from("GARBAGE")];
    assert_eq!(from_stored_roles(Some(stored), vec![Role::ADMIN]), Authorization::Authorized);
    let stored = vec![String::from("GARBAGE"), String::from("ROLE_ADMIN")];
    assert_eq!(from_stored_roles(Some(stored), vec![Role::ADMIN]), Authorization::Authorized);
}

#[test]
fn stored_roles_without_match_or_user_are_denied() {
    let stored = vec![String::from("ROLE_USER"), String::from("GARBAGE")];
    assert_eq!(
        from_stored_roles(Some(stored), vec![Role::ADMIN]),
        Authorization::Unauthorized(Denial::NoMatchingRole)
    );
    assert_eq!(from_stored_roles(None, vec![Role::ADMIN]), Authorization::Unauthorized(Denial::UserNotFound));
    assert_eq!(from_stored_roles(Some(vec![]), vec![Role::ADMIN]), Authorization::Unauthorized(Denial::UserNotFound));
}

#[test]
fn denial_messages() {
    assert_eq!(Denial::NoMatchingRole.message(), "no matching role");
    assert_eq!(Denial::UserNotFound.message(), "user not found");
    assert_eq!(Denial::InvalidSession.message(), "invalid session");
}
