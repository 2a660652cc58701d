//! The command line for managing users.
use vstd::prelude::*;

verus! {

/// Subcommands of `users`.
#[derive(PartialEq, Eq, Clone, Debug)]
pub enum UsersCommands {
    /// Promote user to admin.
    Promote { user_id: String },
    /// Demote admin to regular user.
    Demote { user_id: String },
    /// List all admin users.
    ListAdmins,
}

/// The role a user gets.
#[derive(PartialEq, Eq, Structural, Clone, Copy, Debug)]
pub enum RoleChange {
    Admin,
    User,
}

impl UsersCommands {
    /// The role change the command asks for and whose user, or `None` for the listing.
    pub fn role_change(&self) -> (res: Option<(String, RoleChange)>)
        ensures
            res == match *self {
                UsersCommands::Promote { user_id } => Some((user_id, RoleChange::Admin)),
                UsersCommands::Demote { user_id } => Some((user_id, RoleChange::User)),
                UsersCommands::ListAdmins => None::<(String, RoleChange)>,
            },
    {
        match self {
            UsersCommands::Promote { user_id } => Some((user_id.clone(), RoleChange::Admin)),
            UsersCommands::Demote { user_id } => Some((user_id.clone(), RoleChange::User)),
            UsersCommands::ListAdmins => None,
        }
    }
}

/// The name of a role, as it is printed.
pub open spec fn role_name_spec(r: RoleChange) -> Seq<char> {
    match r {
        RoleChange::Admin => "Admin"@,
        RoleChange::User => "User"@,
    }
}

/// What is printed once a user's role was set: `"User {id} role set to {role}"`.
pub fn role_set_message(user_id: &str, role: RoleChange) -> (res: String)
    ensures
        res@ == "User "@ + user_id@ + " role set to "@ + role_name_spec(role),
{
    let mut res = String::from_str("User ");
    res.append(user_id);
    res.append(" role set to ");
    match role {
        RoleChange::Admin => res.append("Admin"),
        RoleChange::User => res.append("User"),
    }
    res
}

/// The error for a user id that is not known: `"User not found: {id}"`.
pub fn user_not_found_message(user_id: &str) -> (res: String)
    ensures
        res@ == "User not found: "@ + user_id@,
{
    let mut res = String::from_str("User not found: ");
    res.append(user_id);
    res
}

/// One line of the admin listing: `"  - {id} ({name})"`.
pub open spec fn admin_line_spec(id: Seq<char>, name: Seq<char>) -> Seq<char> {
    "  - "@ + id + " ("@ + name + ")"@
}

/// The lines printed for the admins (given as id and name): a note when there
/// are none, else a heading and one line per admin.
pub fn admins_listing(admins: &Vec<(String, String)>) -> (res: Vec<String>)
    ensures
        admins@.len() == 0 ==> res@.len() == 1 && res@[0]@ == "No admins found"@,
        admins@.len() > 0 ==> res@.len() == admins@.len() + 1 && res@[0]@ == "Admins:"@ && forall|
            i: int,
        | 0 <= i < admins@.len() ==> (#[trigger] res@[i + 1])@ == admin_line_spec(
            admins@[i].0@,
            admins@[i].1@,
        ),
{
    let mut res: Vec<String> = Vec::new();
    if admins.len() == 0 {
        res.push(String::from_str("No admins found"));
        return res;
    }
    res.push(String::from_str("Admins:"));
    let mut i: usize = 0;
    while i < admins.len()
        invariant
            i <= admins@.len(),
            res@.len() == i + 1,
            res@[0]@ == "Admins:"@,
            forall|k: int| 0 <= k < i ==> (#[trigger] res@[k + 1])@ == admin_line_spec(
                admins@[k].0@,
                admins@[k].1@,
            ),
        decreases admins@.len() - i,
    {
        let mut line = String::from_str("  - ");
        line.append(admins[i].0.as_str());
        line.append(" (");
        line.append(admins[i].1.as_str());
        line.append(")");
        res.push(line);
        i += 1;
    }
    res
}

} // verus!
