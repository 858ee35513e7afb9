//! The roles a principal can hold, and where a role comes from.

use vstd::prelude::*;

verus! {

/// The role of an authenticated principal.
#[derive(Clone, Copy, Debug, PartialEq, Eq, Structural)]
pub enum Role {
    User,
    Admin,
}

/// The name under which a role is written into a token.
pub open spec fn role_text(r: Role) -> Seq<char> {
    match r {
        Role::User => "User"@,
        Role::Admin => "Admin"@,
    }
}

/// The role that a token's role claim names, if it names one.
pub open spec fn role_named(s: Seq<char>) -> Option<Role> {
    if s == "Admin"@ {
        Some(Role::Admin)
    } else if s == "User"@ {
        Some(Role::User)
    } else {
        None
    }
}

pub proof fn lemma_role_text_round_trip(r: Role)
    ensures
        role_named(role_text(r)) == Some(r),
{
    reveal_strlit("Admin");
    reveal_strlit("User");
    assert("Admin"@ != "User"@) by {
        assert("Admin"@.len() != "User"@.len());
    }
}

impl Role {
    /// Reads a role leniently: "Admin" is the administrator, anything else a user.
    pub fn _from_str(role: &str) -> (r: Role)
        ensures
            r == (if role@ == "Admin"@ {
                Role::Admin
            } else {
                Role::User
            }),
    {
        if crate::text::same_text(role, "Admin") {
            Role::Admin
        } else {
            Role::User
        }
    }

    /// Reads a role strictly, as a token's claim must name it.
    pub fn from_claim(s: &str) -> (r: Option<Role>)
        ensures
            r == role_named(s@),
    {
        if crate::text::same_text(s, "Admin") {
            Some(Role::Admin)
        } else if crate::text::same_text(s, "User") {
            Some(Role::User)
        } else {
            None
        }
    }

    /// The role's name.
    pub fn to_string(&self) -> (r: String)
        ensures
            r@ == role_text(*self),
    {
        match self {
            Role::User => "User".to_owned(),
            Role::Admin => "Admin".to_owned(),
        }
    }
}

} // verus!
