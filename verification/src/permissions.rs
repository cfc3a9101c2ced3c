use vstd::prelude::*;
use serenity::model::permissions::Permissions;
use crate::text::{lowercase, to_lowercase};

verus! {

/// A role of the server: its id, its name and its permission bits.
pub struct RoleRecord {
    pub id: u64,
    pub name: String,
    pub permissions: u64,
}

/// The bit that Discord uses for the administrator permission.
pub open spec fn administrator_bit() -> u64 {
    8
}

/// Permission bits that grant the administrator permission.
pub open spec fn grants_administrator(bits: u64) -> bool {
    bits & administrator_bit() == administrator_bit()
}

/// Calls serenity's `Permissions::administrator` on the permission bits of a role.
/// Trusted: in serenity 0.12.5 `ADMINISTRATOR` is `1 << 3` and `administrator()`
/// is `self.contains(Self::ADMINISTRATOR)`.
#[verifier::external_body]
fn bits_grant_administrator(bits: u64) -> (granted: bool)
    ensures
        granted == grants_administrator(bits),
{
    Permissions::from_bits_retain(bits).administrator()
}

/// The ids of a list of roles, in order.
pub open spec fn role_ids(roles: Seq<RoleRecord>) -> Seq<u64> {
    roles.map_values(|r: RoleRecord| r.id)
}

/// The names of a list of roles, in order.
pub open spec fn role_names(roles: Seq<RoleRecord>) -> Seq<Seq<char>> {
    roles.map_values(|r: RoleRecord| r.name@)
}

/// The lower-cased names of a list of roles, in order.
pub open spec fn role_lower_names(roles: Seq<RoleRecord>) -> Seq<Seq<char>> {
    roles.map_values(|r: RoleRecord| lowercase(r.name@))
}

/// The server's role with a given id, as `guild.roles.get(id)` finds it.
pub open spec fn role_by_id(roles: Seq<RoleRecord>, id: u64) -> Option<RoleRecord> {
    match role_ids(roles).index_of_first(id) {
        Some(i) => Some(roles[i]),
        None => None,
    }
}

/// The server has a role with this id, and it grants administrator.
pub open spec fn id_grants_admin(guild_roles: Seq<RoleRecord>, id: u64) -> bool {
    match role_by_id(guild_roles, id) {
        Some(r) => grants_administrator(r.permissions),
        None => false,
    }
}

/// One of the member's roles is a role of the server that grants administrator.
pub open spec fn holds_admin_role(member_roles: Seq<u64>, guild_roles: Seq<RoleRecord>) -> bool {
    exists|i: int| 0 <= i < member_roles.len() && #[trigger] id_grants_admin(guild_roles, member_roles[i])
}

/// The user is the server's owner or holds a role that grants administrator.
pub open spec fn is_admin(owner_id: u64, user_id: u64, member_roles: Seq<u64>, guild_roles: Seq<RoleRecord>) -> bool {
    owner_id == user_id || holds_admin_role(member_roles, guild_roles)
}

/// The role of the server with the given id.
pub fn find_role(roles: &Vec<RoleRecord>, id: u64) -> (r: Option<usize>)
    ensures
        match r {
            Some(i) => i < roles@.len() && role_ids(roles@).index_of_first(id) == Some(i as int),
            None => role_ids(roles@).index_of_first(id) is None,
        },
{
    let n = roles.len();
    let mut i: usize = 0;
    while i < n
        invariant
            n == roles@.len(),
            i <= n,
            forall|j: int| 0 <= j < i ==> role_ids(roles@)[j] != id,
        decreases n - i,
    {
        if roles[i].id == id {
            proof {
                role_ids(roles@).index_of_first_ensures(id);
                assert(role_ids(roles@)[i as int] == id);
                assert(role_ids(roles@).contains(id));
                let k = role_ids(roles@).index_of_first(id).unwrap();
                assert(!(k < i) && !(i < k));
            }
            return Some(i);
        }
        i = i + 1;
    }
    proof {
        role_ids(roles@).index_of_first_ensures(id);
        if role_ids(roles@).contains(id) {
            let k = role_ids(roles@).index_of_first(id).unwrap();
            assert(role_ids(roles@)[k] != id);
        }
    }
    None
}

/// Whether the user may act as an administrator: the owner of the server, or a
/// member one of whose roles grants the administrator permission.
pub fn check_admin(owner_id: u64, user_id: u64, member_roles: &Vec<u64>, guild_roles: &Vec<RoleRecord>) -> (r: bool)
    ensures
        r == is_admin(owner_id, user_id, member_roles@, guild_roles@),
{
    if owner_id == user_id {
        return true;
    }
    let n = member_roles.len();
    let mut i: usize = 0;
    while i < n
        invariant
            n == member_roles@.len(),
            i <= n,
            forall|j: int| 0 <= j < i ==> !#[trigger] id_grants_admin(guild_roles@, member_roles@[j]),
        decreases n - i,
    {
        match find_role(guild_roles, member_roles[i]) {
            Some(k) => {
                assert(role_by_id(guild_roles@, member_roles@[i as int]) == Some(guild_roles@[k as int]));
                if bits_grant_administrator(guild_roles[k].permissions) {
                    assert(id_grants_admin(guild_roles@, member_roles@[i as int]));
                    return true;
                }
            },
            None => {},
        }
        i = i + 1;
    }
    false
}

/// The id of the first role whose name is exactly `name`.
pub open spec fn role_named(roles: Seq<RoleRecord>, name: Seq<char>) -> Option<u64> {
    match role_names(roles).index_of_first(name) {
        Some(i) => Some(roles[i].id),
        None => None,
    }
}

/// The first role whose name is exactly `name`, as `roles.find(|r| r.name == name)`.
pub fn find_role_named(roles: &Vec<RoleRecord>, name: &String) -> (r: Option<u64>)
    ensures
        r == role_named(roles@, name@),
{
    let n = roles.len();
    let mut i: usize = 0;
    while i < n
        invariant
            n == roles@.len(),
            i <= n,
            forall|j: int| 0 <= j < i ==> role_names(roles@)[j] != name@,
        decreases n - i,
    {
        if roles[i].name == *name {
            proof {
                role_names(roles@).index_of_first_ensures(name@);
                assert(role_names(roles@)[i as int] == name@);
                assert(role_names(roles@).contains(name@));
                let k = role_names(roles@).index_of_first(name@).unwrap();
                assert(!(k < i) && !(i < k));
            }
            return Some(roles[i].id);
        }
        i = i + 1;
    }
    proof {
        role_names(roles@).index_of_first_ensures(name@);
        if role_names(roles@).contains(name@) {
            let k = role_names(roles@).index_of_first(name@).unwrap();
            assert(role_names(roles@)[k] != name@);
        }
    }
    None
}

/// The role that a project's role is taken to be when renaming or deleting:
/// the first whose name equals the project's name ignoring case; none for an
/// empty project name.
pub open spec fn project_role_ignoring_case(roles: Seq<RoleRecord>, project: Seq<char>) -> Option<u64> {
    if project.len() == 0 {
        None
    } else {
        match role_lower_names(roles).index_of_first(lowercase(project)) {
            Some(i) => Some(roles[i].id),
            None => None,
        }
    }
}

/// The id of the first role whose lower-cased name is `target`, given the
/// roles' lower-cased names in order.
pub fn first_role_with_lower_name(roles: &Vec<RoleRecord>, lowered: &Vec<String>, target: &String) -> (r: Option<u64>)
    requires
        lowered@.len() == roles@.len(),
    ensures
        r == (match lowered@.map_values(|s: String| s@).index_of_first(target@) {
            Some(i) => Some(roles@[i].id),
            None => None,
        }),
{
    let ghost ls = lowered@.map_values(|s: String| s@);
    let n = roles.len();
    let mut i: usize = 0;
    while i < n
        invariant
            n == roles@.len(),
            n == lowered@.len(),
            ls == lowered@.map_values(|s: String| s@),
            i <= n,
            forall|j: int| 0 <= j < i ==> ls[j] != target@,
        decreases n - i,
    {
        if lowered[i] == *target {
            proof {
                ls.index_of_first_ensures(target@);
                assert(ls[i as int] == target@);
                assert(ls.contains(target@));
                let k = ls.index_of_first(target@).unwrap();
                assert(!(k < i) && !(i < k));
            }
            return Some(roles[i].id);
        }
        i = i + 1;
    }
    proof {
        ls.index_of_first_ensures(target@);
        if ls.contains(target@) {
            let k = ls.index_of_first(target@).unwrap();
            assert(ls[k] != target@);
        }
    }
    None
}

/// Finds the role of a project by name, ignoring case.
pub fn find_project_role(roles: &Vec<RoleRecord>, project: &String) -> (r: Option<u64>)
    ensures
        r == project_role_ignoring_case(roles@, project@),
{
    if project.as_str().is_empty() {
        return None;
    }
    let target = to_lowercase(project.as_str());
    let mut lowered: Vec<String> = Vec::new();
    let n = roles.len();
    let mut i: usize = 0;
    while i < n
        invariant
            n == roles@.len(),
            i <= n,
            lowered@.len() == i,
            forall|j: int| 0 <= j < i ==> #[trigger] lowered@[j]@ == lowercase(roles@[j].name@),
        decreases n - i,
    {
        lowered.push(to_lowercase(roles[i].name.as_str()));
        i = i + 1;
    }
    assert(lowered@.map_values(|s: String| s@) =~= role_lower_names(roles@));
    first_role_with_lower_name(roles, &lowered, &target)
}

/// The project's role found ignoring case is the first role whose name equals
/// the project's name up to case; there is none exactly when the name is empty
/// or no role's name matches it.
pub proof fn lemma_project_role_is_first_match(roles: Seq<RoleRecord>, project: Seq<char>)
    ensures
        project_role_ignoring_case(roles, project) matches Some(id) ==> exists|i: int|
            0 <= i < roles.len() && roles[i].id == id && lowercase(#[trigger] roles[i].name@) == lowercase(project)
                && project.len() > 0 && forall|j: int| 0 <= j < i ==> lowercase(#[trigger] roles[j].name@) != lowercase(
                project,
            ),
        project_role_ignoring_case(roles, project) is None ==> project.len() == 0 || forall|i: int|
            0 <= i < roles.len() ==> lowercase(#[trigger] roles[i].name@) != lowercase(project),
{
    let ls = role_lower_names(roles);
    ls.index_of_first_ensures(lowercase(project));
    if project.len() > 0 {
        match ls.index_of_first(lowercase(project)) {
            Some(i) => {
                assert(ls[i] == lowercase(roles[i].name@));
                assert forall|j: int| 0 <= j < i implies lowercase(#[trigger] roles[j].name@) != lowercase(project) by {
                    assert(ls[j] == lowercase(roles[j].name@));
                }
            },
            None => {
                assert forall|i: int| 0 <= i < roles.len() implies lowercase(#[trigger] roles[i].name@) != lowercase(
                    project,
                ) by {
                    assert(ls[i] == lowercase(roles[i].name@));
                }
            },
        }
    }
}

} // verus!
