//! Roles in an organization.
use vstd::prelude::*;
use crate::text::str_eq;

verus! {

/// Organization role. Written and parsed as its lowercase name.
#[derive(Debug, Clone, Copy, PartialEq, Eq, Structural)]
pub enum OrganizationRole {
    Owner,
    Admin,
    Member,
    Viewer,
}

/// The lowercase name of a role.
pub open spec fn role_name(role: OrganizationRole) -> Seq<char> {
    match role {
        OrganizationRole::Owner => "owner"@,
        OrganizationRole::Admin => "admin"@,
        OrganizationRole::Member => "member"@,
        OrganizationRole::Viewer => "viewer"@,
    }
}

/// The role whose lowercase name is `s`, if any.
pub open spec fn role_named(s: Seq<char>) -> Option<OrganizationRole> {
    if s == "owner"@ {
        Some(OrganizationRole::Owner)
    } else if s == "admin"@ {
        Some(OrganizationRole::Admin)
    } else if s == "member"@ {
        Some(OrganizationRole::Member)
    } else if s == "viewer"@ {
        Some(OrganizationRole::Viewer)
    } else {
        None
    }
}

/// The text is not the name of a role or view mode.
#[derive(Debug, Clone, Copy, PartialEq, Eq, Structural)]
pub struct ParseNameError;

impl OrganizationRole {
    /// The role's lowercase name.
    pub fn as_str(&self) -> (r: &'static str)
        ensures
            r@ == role_name(*self),
    {
        match self {
            OrganizationRole::Owner => "owner",
            OrganizationRole::Admin => "admin",
            OrganizationRole::Member => "member",
            OrganizationRole::Viewer => "viewer",
        }
    }

    /// The role's lowercase name, as an owned string.
    pub fn to_string(&self) -> (r: String)
        ensures
            r@ == role_name(*self),
    {
        crate::text::string_of(self.as_str())
    }

    /// Parses a lowercase role name; any other text is refused.
    pub fn parse(s: &str) -> (res: Result<OrganizationRole, ParseNameError>)
        ensures
            res matches Ok(r) ==> role_named(s@) == Some(r),
            res is Err <==> role_named(s@) is None,
    {
        if str_eq(s, "owner") {
            Ok(OrganizationRole::Owner)
        } else if str_eq(s, "admin") {
            Ok(OrganizationRole::Admin)
        } else if str_eq(s, "member") {
            Ok(OrganizationRole::Member)
        } else if str_eq(s, "viewer") {
            Ok(OrganizationRole::Viewer)
        } else {
            Err(ParseNameError)
        }
    }
}

/// Parsing the name of a role gives the role back.
pub proof fn law_role_name_roundtrip(role: OrganizationRole)
    ensures
        role_named(role_name(role)) == Some(role),
{
    reveal_strlit("owner");
    reveal_strlit("admin");
    reveal_strlit("member");
    reveal_strlit("viewer");
    assert("admin"@[0] != "owner"@[0]);
    assert("member"@[0] != "owner"@[0] && "member"@[0] != "admin"@[0]);
    assert("viewer"@[0] != "owner"@[0] && "viewer"@[0] != "admin"@[0] && "viewer"@[0]
        != "member"@[0]);
}

/// A name that parses to a role is that role's name.
pub proof fn law_role_named_is_name(s: Seq<char>)
    ensures
        role_named(s) matches Some(role) ==> role_name(role) == s,
{
}

} // verus!
