//! The capabilities a user can hold, and their canonical wire form.

use vstd::prelude::*;
use crate::text::same_text;

verus! {

/// A named authorization capability.
#[allow(non_camel_case_types)]
#[derive(Debug, Clone, Copy, PartialEq, Eq, Structural)]
pub enum Role {
    SUPER_ADMIN,
    ADMIN,
    USER,
}

/// A string that names no known role.
#[derive(Debug, Clone, Copy, PartialEq, Eq, Structural)]
pub struct InvalidRole;

impl Role {
    /// The canonical wire form: the role's name with the `ROLE_` prefix.
    pub open spec fn wire_name(self) -> Seq<char> {
        match self {
            Role::SUPER_ADMIN => "ROLE_SUPER_ADMIN"@,
            Role::ADMIN => "ROLE_ADMIN"@,
            Role::USER => "ROLE_USER"@,
        }
    }

    /// The role whose wire form is `s`, if there is one.
    pub open spec fn from_wire(s: Seq<char>) -> Option<Role> {
        if s == Role::SUPER_ADMIN.wire_name() {
            Some(Role::SUPER_ADMIN)
        } else if s == Role::ADMIN.wire_name() {
            Some(Role::ADMIN)
        } else if s == Role::USER.wire_name() {
            Some(Role::USER)
        } else {
            None
        }
    }

    pub fn to_str(&self) -> (r: &'static str)
        ensures
            r@ == self.wire_name(),
    {
        match self {
            Role::SUPER_ADMIN => "ROLE_SUPER_ADMIN",
            Role::ADMIN => "ROLE_ADMIN",
            Role::USER => "ROLE_USER",
        }
    }

    /// The wire form as an owned string.
    pub fn to_string(&self) -> (r: String)
        ensures
            r@ == self.wire_name(),
    {
        self.to_str().to_owned()
    }

    /// Reads a role from its wire form; anything else is refused, never coerced.
    pub fn parse(s: &str) -> (r: Result<Role, InvalidRole>)
        ensures
            match Role::from_wire(s@) {
                Some(role) => r == Ok::<Role, InvalidRole>(role),
                None => r == Err::<Role, InvalidRole>(InvalidRole),
            },
    {
        if same_text(s, "ROLE_SUPER_ADMIN") {
            Ok(Role::SUPER_ADMIN)
        } else if same_text(s, "ROLE_ADMIN") {
            Ok(Role::ADMIN)
        } else if same_text(s, "ROLE_USER") {
            Ok(Role::USER)
        } else {
            Err(InvalidRole)
        }
    }
}

impl std::str::FromStr for Role {
    type Err = InvalidRole;

    fn from_str(role: &str) -> (r: Result<Role, InvalidRole>)
        ensures
            match Role::from_wire(role@) {
                Some(x) => r == Ok::<Role, InvalidRole>(x),
                None => r == Err::<Role, InvalidRole>(InvalidRole),
            },
    {
        Role::parse(role)
    }
}

/// Every role reads back from its own wire form.
pub proof fn lemma_wire_round_trip(role: Role)
    ensures
        Role::from_wire(role.wire_name()) == Some(role),
{
    reveal_strlit("ROLE_SUPER_ADMIN");
    reveal_strlit("ROLE_ADMIN");
    reveal_strlit("ROLE_USER");
    assert(Role::SUPER_ADMIN.wire_name().len() == 16);
    assert(Role::ADMIN.wire_name().len() == 10);
    assert(Role::USER.wire_name().len() == 9);
}

} // verus!
