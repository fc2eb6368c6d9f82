use vstd::prelude::*;
use crate::error::AppError;
use crate::text::{lower_of, trim_of, to_lower, trim, same_text, joined, lowercase_letters};

verus! {

/// The roles a user can hold.
#[derive(Debug, Clone, Copy, PartialEq, Eq, Structural)]
pub enum Role {
    Admin,
    Mod,
    Chef,
    Diner,
}

/// The stored and displayed name of each role.
pub open spec fn role_name(r: Role) -> Seq<char> {
    match r {
        Role::Admin => "admin"@,
        Role::Mod => "mod"@,
        Role::Chef => "chef"@,
        Role::Diner => "diner"@,
    }
}

/// The role whose name is exactly `s`, if any.
pub open spec fn role_named(s: Seq<char>) -> Option<Role> {
    if s == "admin"@ {
        Some(Role::Admin)
    } else if s == "mod"@ {
        Some(Role::Mod)
    } else if s == "chef"@ {
        Some(Role::Chef)
    } else if s == "diner"@ {
        Some(Role::Diner)
    } else {
        None
    }
}

/// The name that the debug form of a role list shows for each role.
pub open spec fn role_label(r: Role) -> Seq<char> {
    match r {
        Role::Admin => "Admin"@,
        Role::Mod => "Mod"@,
        Role::Chef => "Chef"@,
        Role::Diner => "Diner"@,
    }
}

/// The allow-list of actions of each role; an admin may do anything.
pub open spec fn permitted(role: Role, action: Seq<char>) -> bool {
    match role {
        Role::Admin => true,
        Role::Mod => action == "manage_content"@ || action == "manage_users"@ || action
            == "view_reports"@,
        Role::Chef => action == "manage_own_chef_profile"@ || action == "manage_own_menus"@
            || action == "manage_own_bookings"@,
        Role::Diner => action == "view_chefs"@ || action == "create_booking"@ || action
            == "view_own_bookings"@,
    }
}

/// The role read from a stored value: its trimmed lower-case form names a
/// role, or the value falls back to diner.
pub open spec fn stored_role(s: Seq<char>) -> Role {
    match role_named(trim_of(lower_of(s))) {
        Some(r) => r,
        None => Role::Diner,
    }
}

/// The debug text of a list of roles, as `[Admin, Mod]`.
pub open spec fn roles_label(roles: Seq<Role>) -> Seq<char> {
    "["@ + roles_label_items(roles) + "]"@
}

pub open spec fn roles_label_items(roles: Seq<Role>) -> Seq<char>
    decreases roles.len(),
{
    if roles.len() == 0 {
        Seq::empty()
    } else if roles.len() == 1 {
        role_label(roles[0])
    } else {
        roles_label_items(roles.drop_last()) + ", "@ + role_label(roles.last())
    }
}

impl Role {
    /// The role whose name is exactly `s`.
    pub fn from_name(s: &str) -> (r: Option<Role>)
        ensures
            r == role_named(s@),
    {
        if same_text(s, "admin") {
            Some(Role::Admin)
        } else if same_text(s, "mod") {
            Some(Role::Mod)
        } else if same_text(s, "chef") {
            Some(Role::Chef)
        } else if same_text(s, "diner") {
            Some(Role::Diner)
        } else {
            None
        }
    }

    /// Reads a role name without regard to case.
    pub fn parse(s: &str) -> (r: Result<Role, String>)
        ensures
            role_named(lower_of(s@)) matches Some(x) ==> r == Ok::<Role, String>(x),
            role_named(s@) matches Some(x) ==> r == Ok::<Role, String>(x),
            role_named(lower_of(s@)) is None ==> (r matches Err(m) && m@ == "Invalid role: "@ + s@),
    {
        let lower = to_lower(s);
        proof {
            lemma_role_names_lowercase(s@);
        }
        match Role::from_name(lower.as_str()) {
            Some(x) => Ok(x),
            None => Err(joined("Invalid role: ", s)),
        }
    }

    /// Reads a role from storage; a value that names no role is read as diner.
    pub fn from_stored(s: &str) -> (r: Role)
        ensures
            r == stored_role(s@),
    {
        let lower = to_lower(s);
        match Role::from_name(trim(lower.as_str())) {
            Some(x) => x,
            None => Role::Diner,
        }
    }

    /// The role's name.
    pub fn as_str(&self) -> (r: &'static str)
        ensures
            r@ == role_name(*self),
    {
        match self {
            Role::Admin => "admin",
            Role::Mod => "mod",
            Role::Chef => "chef",
            Role::Diner => "diner",
        }
    }

    /// The role's name as an owned text.
    pub fn to_string(&self) -> (r: String)
        ensures
            r@ == role_name(*self),
    {
        String::from_str(self.as_str())
    }

    /// The label of the role in the debug form of a role list.
    pub fn label(&self) -> (r: &'static str)
        ensures
            r@ == role_label(*self),
    {
        match self {
            Role::Admin => "Admin",
            Role::Mod => "Mod",
            Role::Chef => "Chef",
            Role::Diner => "Diner",
        }
    }
}

impl Default for Role {
    fn default() -> (r: Role)
        ensures
            r == Role::Diner,
    {
        Role::Diner
    }
}

impl std::str::FromStr for Role {
    type Err = String;

    fn from_str(s: &str) -> (r: Result<Role, String>)
        ensures
            role_named(lower_of(s@)) matches Some(x) ==> r == Ok::<Role, String>(x),
            role_named(s@) matches Some(x) ==> r == Ok::<Role, String>(x),
            role_named(lower_of(s@)) is None ==> (r matches Err(m) && m@ == "Invalid role: "@ + s@),
    {
        Role::parse(s)
    }
}

/// Every role name is made of lower-case letters.
proof fn lemma_role_names_lowercase(s: Seq<char>)
    ensures
        role_named(s) is Some ==> lowercase_letters(s),
{
    reveal_strlit("admin");
    reveal_strlit("mod");
    reveal_strlit("chef");
    reveal_strlit("diner");
}

/// Each role's name reads back as that role.
pub proof fn lemma_role_name_round_trip(r: Role)
    ensures
        role_named(role_name(r)) == Some(r),
{
    reveal_strlit("admin");
    reveal_strlit("mod");
    reveal_strlit("chef");
    reveal_strlit("diner");
    assert("admin"@[0] != "diner"@[0]);
    assert("chef"@[0] != "mod"@[0]);
}

/// Whether `role` may perform `action`.
pub fn has_permission(role: Role, action: &str) -> (r: bool)
    ensures
        r == permitted(role, action@),
{
    match role {
        Role::Admin => true,
        Role::Mod => same_text(action, "manage_content") || same_text(action, "manage_users")
            || same_text(action, "view_reports"),
        Role::Chef => same_text(action, "manage_own_chef_profile") || same_text(
            action,
            "manage_own_menus",
        ) || same_text(action, "manage_own_bookings"),
        Role::Diner => same_text(action, "view_chefs") || same_text(action, "create_booking")
            || same_text(action, "view_own_bookings"),
    }
}

/// The debug text of a list of roles.
pub fn describe_roles(roles: &[Role]) -> (r: String)
    ensures
        r@ == roles_label(roles@),
{
    let mut items = String::new();
    let mut i: usize = 0;
    while i < roles.len()
        invariant
            i <= roles@.len(),
            items@ == roles_label_items(roles@.subrange(0, i as int)),
        decreases roles.len() - i,
    {
        proof {
            let next = roles@.subrange(0, i + 1);
            assert(next.drop_last() =~= roles@.subrange(0, i as int));
        }
        if i > 0 {
            items.append(", ");
        }
        items.append(roles[i].label());
        i = i + 1;
    }
    assert(roles@.subrange(0, roles@.len() as int) =~= roles@);
    let mut r = String::from_str("[");
    r.append(items.as_str());
    r.append("]");
    r
}

/// The role of the user found under an identity, or not found.
pub fn extract_user_role(found: Option<Role>) -> (r: Result<Role, AppError>)
    ensures
        found matches Some(x) ==> r == Ok::<Role, AppError>(x),
        found is None ==> (r matches Err(AppError::NotFound(m)) && m@ == "User not found"@),
{
    match found {
        Some(x) => Ok(x),
        None => Err(AppError::not_found("User not found")),
    }
}

/// Lets a role through when it is one of `allowed`.
pub fn require_roles(role: Role, allowed: &[Role]) -> (r: Result<(), AppError>)
    ensures
        allowed@.contains(role) ==> r is Ok,
        !allowed@.contains(role) ==> (r matches Err(AppError::Unauthorized(m)) && m@
            == "Access denied. Required roles: "@ + roles_label(allowed@)),
{
    let mut i: usize = 0;
    while i < allowed.len()
        invariant
            i <= allowed@.len(),
            forall|j: int| 0 <= j < i ==> allowed@[j] != role,
        decreases allowed.len() - i,
    {
        if allowed[i] == role {
            return Ok(());
        }
        i = i + 1;
    }
    let roles = describe_roles(allowed);
    Err(AppError::Unauthorized(joined("Access denied. Required roles: ", roles.as_str())))
}

/// Lets only admins through.
pub fn require_admin(role: Role) -> (r: Result<(), AppError>)
    ensures
        r is Ok <==> role == Role::Admin,
        r is Err ==> r matches Err(AppError::Unauthorized(_)),
{
    let allowed = [Role::Admin];
    assert(allowed@.contains(role) <==> role == Role::Admin) by {
        if role == Role::Admin {
            assert(allowed@[0] == role);
        }
    }
    require_roles(role, &allowed)
}

/// Lets admins and moderators through.
pub fn require_admin_or_mod(role: Role) -> (r: Result<(), AppError>)
    ensures
        r is Ok <==> (role == Role::Admin || role == Role::Mod),
        r is Err ==> r matches Err(AppError::Unauthorized(_)),
{
    let allowed = [Role::Admin, Role::Mod];
    assert(allowed@.contains(role) <==> (role == Role::Admin || role == Role::Mod)) by {
        if role == Role::Admin {
            assert(allowed@[0] == role);
        }
        if role == Role::Mod {
            assert(allowed@[1] == role);
        }
    }
    require_roles(role, &allowed)
}

/// Lets only chefs through.
pub fn require_chef(role: Role) -> (r: Result<(), AppError>)
    ensures
        r is Ok <==> role == Role::Chef,
        r is Err ==> r matches Err(AppError::Unauthorized(_)),
{
    let allowed = [Role::Chef];
    assert(allowed@.contains(role) <==> role == Role::Chef) by {
        if role == Role::Chef {
            assert(allowed@[0] == role);
        }
    }
    require_roles(role, &allowed)
}

/// Lets chefs and admins through.
pub fn require_chef_or_admin(role: Role) -> (r: Result<(), AppError>)
    ensures
        r is Ok <==> (role == Role::Chef || role == Role::Admin),
        r is Err ==> r matches Err(AppError::Unauthorized(_)),
{
    let allowed = [Role::Chef, Role::Admin];
    assert(allowed@.contains(role) <==> (role == Role::Chef || role == Role::Admin)) by {
        if role == Role::Chef {
            assert(allowed@[0] == role);
        }
        if role == Role::Admin {
            assert(allowed@[1] == role);
        }
    }
    require_roles(role, &allowed)
}

/// Whether a role may use the chef pages: chefs and admins.
pub fn may_manage_chef_pages(role: Role) -> (r: bool)
    ensures
        r == (role == Role::Chef || role == Role::Admin),
{
    role == Role::Chef || role == Role::Admin
}

} // verus!
