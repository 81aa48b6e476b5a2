use vstd::prelude::*;

use crate::error::AuthError;
use crate::text::{contains_id, contains_text, same_text, texts};

verus! {

/// A role of the server: its identifier and its display name.
#[derive(Clone, Debug)]
pub struct Role {
    pub id: u64,
    pub name: String,
}

/// The roles that exist on the server, as the platform lists them.
#[derive(Clone, Debug)]
pub struct RoleDirectory {
    pub roles: Vec<Role>,
}

/// The two outcomes of a verification: the role for staff and the role for
/// everyone else.
#[derive(Clone, Copy, Debug, PartialEq, Eq, Structural)]
pub struct RoleConfig {
    pub staff_role: u64,
    pub member_role: u64,
}

/// The identifier of the first role named `name`.
pub open spec fn role_named(roles: Seq<Role>, name: Seq<char>) -> Option<u64>
    decreases roles.len(),
{
    if roles.len() == 0 {
        None
    } else if roles[0].name@ == name {
        Some(roles[0].id)
    } else {
        role_named(roles.drop_first(), name)
    }
}

/// The name of the first role with identifier `id`.
pub open spec fn name_of_role(roles: Seq<Role>, id: u64) -> Option<Seq<char>>
    decreases roles.len(),
{
    if roles.len() == 0 {
        None
    } else if roles[0].id == id {
        Some(roles[0].name@)
    } else {
        name_of_role(roles.drop_first(), id)
    }
}

/// The names of the roles in `ids`, in order, leaving out identifiers that
/// name no role.
pub open spec fn names_of_roles(roles: Seq<Role>, ids: Seq<u64>) -> Seq<Seq<char>>
    decreases ids.len(),
{
    if ids.len() == 0 {
        Seq::empty()
    } else {
        let prev = names_of_roles(roles, ids.drop_last());
        match name_of_role(roles, ids.last()) {
            Some(n) => prev.push(n),
            None => prev,
        }
    }
}

/// The configuration that a directory gives for the two role names.
pub open spec fn config_of(roles: Seq<Role>, staff_name: Seq<char>, member_name: Seq<char>) -> Result<
    RoleConfig,
    AuthError,
> {
    match (role_named(roles, staff_name), role_named(roles, member_name)) {
        (Some(s), Some(m)) => Ok(RoleConfig { staff_role: s, member_role: m }),
        _ => Err(AuthError::RoleMissing),
    }
}

/// The role that a verified identity earns: the staff role exactly when the
/// identifier is in the staff snapshot.
pub open spec fn classify_spec(institution: Seq<char>, staff: Seq<Seq<char>>, config: RoleConfig) -> u64 {
    if staff.contains(institution) {
        config.staff_role
    } else {
        config.member_role
    }
}

impl RoleDirectory {
    /// The identifier of the first role named `name`, if any.
    pub fn find_by_name(&self, name: &str) -> (r: Option<u64>)
        ensures
            r == role_named(self.roles@, name@),
    {
        let ghost all = self.roles@;
        assert(all.subrange(0, all.len() as int) =~= all);
        let mut i: usize = 0;
        while i < self.roles.len()
            invariant
                i <= all.len(),
                all == self.roles@,
                role_named(all, name@) == role_named(all.subrange(i as int, all.len() as int), name@),
            decreases all.len() - i,
        {
            let ghost rest = all.subrange(i as int, all.len() as int);
            assert(rest.drop_first() =~= all.subrange(i + 1, all.len() as int));
            if same_text(self.roles[i].name.as_str(), name) {
                return Some(self.roles[i].id);
            }
            i = i + 1;
        }
        None
    }

    /// The name of the first role with identifier `id`, if any.
    pub fn name_of(&self, id: u64) -> (r: Option<String>)
        ensures
            r.is_some() == name_of_role(self.roles@, id).is_some(),
            r.is_some() ==> r.unwrap()@ == name_of_role(self.roles@, id).unwrap(),
    {
        let ghost all = self.roles@;
        assert(all.subrange(0, all.len() as int) =~= all);
        let mut i: usize = 0;
        while i < self.roles.len()
            invariant
                i <= all.len(),
                all == self.roles@,
                name_of_role(all, id) == name_of_role(all.subrange(i as int, all.len() as int), id),
            decreases all.len() - i,
        {
            let ghost rest = all.subrange(i as int, all.len() as int);
            assert(rest.drop_first() =~= all.subrange(i + 1, all.len() as int));
            if self.roles[i].id == id {
                return Some(self.roles[i].name.clone());
            }
            i = i + 1;
        }
        None
    }

    /// The names of the roles in `ids`, in order; identifiers that name no
    /// role of the server are left out.
    pub fn names_of(&self, ids: &Vec<u64>) -> (r: Vec<String>)
        ensures
            texts(r@) == names_of_roles(self.roles@, ids@),
    {
        let mut names: Vec<String> = Vec::new();
        let mut i: usize = 0;
        while i < ids.len()
            invariant
                i <= ids@.len(),
                texts(names@) == names_of_roles(self.roles@, ids@.subrange(0, i as int)),
            decreases ids@.len() - i,
        {
            let ghost before = names@;
            assert(ids@.subrange(0, i + 1).drop_last() =~= ids@.subrange(0, i as int));
            match self.name_of(ids[i]) {
                Some(n) => {
                    names.push(n);
                    assert(texts(names@) =~= texts(before).push(names@.last()@));
                },
                None => {},
            }
            i = i + 1;
        }
        assert(ids@.subrange(0, ids@.len() as int) =~= ids@);
        names
    }
}

/// The configuration for the staff and member role names, or `RoleMissing`
/// when the server lacks either role.
pub fn role_config(dir: &RoleDirectory, staff_name: &str, member_name: &str) -> (r: Result<
    RoleConfig,
    AuthError,
>)
    ensures
        r == config_of(dir.roles@, staff_name@, member_name@),
{
    let staff = dir.find_by_name(staff_name);
    let member = dir.find_by_name(member_name);
    match (staff, member) {
        (Some(s), Some(m)) => Ok(RoleConfig { staff_role: s, member_role: m }),
        _ => Err(AuthError::RoleMissing),
    }
}

/// The role to grant to the holder of `institution`, given a snapshot of the
/// staff identifiers.
pub fn classify(institution: &str, staff: &Vec<String>, config: &RoleConfig) -> (r: u64)
    ensures
        r == classify_spec(institution@, texts(staff@), *config),
{
    if contains_text(staff, institution) {
        config.staff_role
    } else {
        config.member_role
    }
}

/// Whether a member with roles `member_roles` is a moderator.
pub fn check_admin(member_roles: &Vec<u64>, admin_role: u64) -> (r: bool)
    ensures
        r == member_roles@.contains(admin_role),
{
    contains_id(member_roles, admin_role)
}

} // verus!
