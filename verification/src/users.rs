//! Users and their roles; a role grants every permission of the roles below it.
use vstd::prelude::*;
use vstd::utf8::is_ascii_chars;
use crate::text::{lowercase_of, str_eq, to_lowercase, to_string_of, lemma_lowercase_fixed, lemma_lowercase_idempotent_ascii};

verus! {

/// The access levels, from the least to the most privileged.
#[derive(Debug, Clone, Copy, PartialEq, Eq, Structural)]
pub enum UserRole {
    Guest,
    Viewer,
    User,
    Admin,
    Operator,
    SuperAdmin,
}

/// The rank of a role in the privilege order.
pub open spec fn role_rank(r: UserRole) -> int {
    match r {
        UserRole::Guest => 0,
        UserRole::Viewer => 1,
        UserRole::User => 2,
        UserRole::Admin => 3,
        UserRole::Operator => 4,
        UserRole::SuperAdmin => 5,
    }
}

/// A holder of role `held` has the permissions required by role `required`.
pub open spec fn role_permits(held: UserRole, required: UserRole) -> bool {
    role_rank(held) >= role_rank(required)
}

/// The stored name of a role.
pub open spec fn role_name(r: UserRole) -> Seq<char> {
    match r {
        UserRole::SuperAdmin => "superadmin"@,
        UserRole::Operator => "operator"@,
        UserRole::Admin => "admin"@,
        UserRole::User => "user"@,
        UserRole::Viewer => "viewer"@,
        UserRole::Guest => "guest"@,
    }
}

/// The role named by a lowercase text; any other text names the guest role.
pub open spec fn role_from_lower(s: Seq<char>) -> UserRole {
    if s == "superadmin"@ {
        UserRole::SuperAdmin
    } else if s == "operator"@ {
        UserRole::Operator
    } else if s == "admin"@ {
        UserRole::Admin
    } else if s == "user"@ {
        UserRole::User
    } else if s == "viewer"@ {
        UserRole::Viewer
    } else {
        UserRole::Guest
    }
}

/// The role read from a stored text, whatever its letter case.
pub open spec fn role_from_text(s: Seq<char>) -> UserRole {
    role_from_lower(lowercase_of(s))
}

impl UserRole {
    /// The stored name of the role.
    pub fn to_string(&self) -> (r: String)
        ensures
            r@ == role_name(*self),
    {
        match self {
            UserRole::SuperAdmin => to_string_of("superadmin"),
            UserRole::Operator => to_string_of("operator"),
            UserRole::Admin => to_string_of("admin"),
            UserRole::User => to_string_of("user"),
            UserRole::Viewer => to_string_of("viewer"),
            UserRole::Guest => to_string_of("guest"),
        }
    }

    /// The role read from a text, whatever its letter case; unknown names give the guest role.
    pub fn from_text(s: &str) -> (r: UserRole)
        ensures
            r == role_from_text(s@),
    {
        let l = to_lowercase(s);
        let t = l.as_str();
        if str_eq(t, "superadmin") {
            UserRole::SuperAdmin
        } else if str_eq(t, "operator") {
            UserRole::Operator
        } else if str_eq(t, "admin") {
            UserRole::Admin
        } else if str_eq(t, "user") {
            UserRole::User
        } else if str_eq(t, "viewer") {
            UserRole::Viewer
        } else {
            UserRole::Guest
        }
    }
}

impl From<String> for UserRole {
    fn from(s: String) -> (r: UserRole)
        ensures
            r == role_from_text(s@),
    {
        UserRole::from_text(s.as_str())
    }
}

impl vstd::std_specs::convert::FromSpecImpl<String> for UserRole {
    open spec fn obeys_from_spec() -> bool {
        true
    }

    open spec fn from_spec(v: String) -> UserRole {
        role_from_text(v@)
    }
}

/// A user account.
#[derive(Debug, Clone)]
pub struct User {
    pub entity_id: i64,
    pub username: String,
    pub role: UserRole,
    pub last_login: Option<String>,
}

impl User {
    /// The user's role is at least `required` in the privilege order.
    pub fn has_permission(&self, required: UserRole) -> (r: bool)
        ensures
            r == role_permits(self.role, required),
    {
        role_rank_of(self.role) >= role_rank_of(required)
    }
}

fn role_rank_of(r: UserRole) -> (n: u8)
    ensures
        n == role_rank(r),
{
    match r {
        UserRole::Guest => 0,
        UserRole::Viewer => 1,
        UserRole::User => 2,
        UserRole::Admin => 3,
        UserRole::Operator => 4,
        UserRole::SuperAdmin => 5,
    }
}

/// Reading back the stored name of a role gives the role.
pub proof fn lemma_role_name_round_trip(r: UserRole)
    ensures
        role_from_text(role_name(r)) == r,
{
    reveal_strlit("superadmin");
    reveal_strlit("operator");
    reveal_strlit("admin");
    reveal_strlit("user");
    reveal_strlit("viewer");
    reveal_strlit("guest");
    let s = role_name(r);
    assert(is_ascii_chars(s));
    assert forall|i: int| 0 <= i < s.len() implies !('A' <= #[trigger] s[i] && s[i] <= 'Z') by {}
    lemma_lowercase_fixed(s);
    assert("guest"@[0] != "admin"@[0]);
    assert("user"@.len() != "admin"@.len());
}

/// Every role has its own permissions.
pub proof fn lemma_permission_reflexive(r: UserRole)
    ensures
        role_permits(r, r),
{
}

/// Permissions pass down the privilege order.
pub proof fn lemma_permission_transitive(a: UserRole, b: UserRole, c: UserRole)
    requires
        role_permits(a, b),
        role_permits(b, c),
    ensures
        role_permits(a, c),
{
}

/// Any two roles are comparable, and two roles that permit each other are the same role.
pub proof fn lemma_permission_total_order(a: UserRole, b: UserRole)
    ensures
        role_permits(a, b) || role_permits(b, a),
        role_permits(a, b) && role_permits(b, a) ==> a == b,
{
}

/// The super administrator holds every permission; every role holds the guest permissions.
pub proof fn lemma_permission_bounds(r: UserRole)
    ensures
        role_permits(UserRole::SuperAdmin, r),
        role_permits(r, UserRole::Guest),
{
}

/// The hierarchy follows the order in which the roles are declared: Guest, Viewer, User,
/// Admin, Operator, SuperAdmin. Each role holds exactly its own permissions and those of the
/// roles declared before it; a viewer, for one, may not act as a user.
pub proof fn lemma_role_hierarchy(b: UserRole)
    ensures
        role_permits(UserRole::Guest, b) <==> b == UserRole::Guest,
        role_permits(UserRole::Viewer, b) <==> (b == UserRole::Guest || b == UserRole::Viewer),
        role_permits(UserRole::User, b) <==> (b == UserRole::Guest || b == UserRole::Viewer || b == UserRole::User),
        role_permits(UserRole::Admin, b) <==> (b == UserRole::Guest || b == UserRole::Viewer || b == UserRole::User
            || b == UserRole::Admin),
        role_permits(UserRole::Operator, b) <==> b != UserRole::SuperAdmin,
        role_permits(UserRole::SuperAdmin, b),
{
}

/// Reading a role ignores the letter case of an ASCII text: the text and its lowercase give
/// the same role.
pub proof fn lemma_role_case_insensitive(s: Seq<char>)
    requires
        is_ascii_chars(s),
    ensures
        role_from_text(lowercase_of(s)) == role_from_text(s),
{
    lemma_lowercase_idempotent_ascii(s);
}

} // verus!
