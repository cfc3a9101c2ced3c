use vstd::prelude::*;

verus! {

/// A known member of the server and the name shown for them.
pub struct MemberRecord {
    pub user_id: u64,
    pub display_name: String,
}

/// A project and the ids of the users who hold its role.
pub struct ProjectRecord {
    pub name: String,
    pub member_ids: Vec<u64>,
}

/// A project and the id of its project manager.
pub struct PmRecord {
    pub project: String,
    pub pm_id: u64,
}

/// The bot's snapshot of the server: its members, each project's members, and
/// each project's manager.  Each list is read as a map: the first entry with a
/// key is the one that counts.
pub struct BotCache {
    pub all_members: Vec<MemberRecord>,
    pub project_mapping: Vec<ProjectRecord>,
    pub project_pms: Vec<PmRecord>,
}

/// The view of an optional string.
pub open spec fn opt_view(o: Option<String>) -> Option<Seq<char>> {
    match o {
        Some(s) => Some(s@),
        None => None,
    }
}

impl BotCache {
    /// The user ids of `all_members`, in order.
    pub open spec fn member_ids(&self) -> Seq<u64> {
        self.all_members@.map_values(|m: MemberRecord| m.user_id)
    }

    /// The project names of `project_mapping`, in order.
    pub open spec fn project_names(&self) -> Seq<Seq<char>> {
        self.project_mapping@.map_values(|p: ProjectRecord| p.name@)
    }

    /// The project names of `project_pms`, in order.
    pub open spec fn pm_project_names(&self) -> Seq<Seq<char>> {
        self.project_pms@.map_values(|p: PmRecord| p.project@)
    }

    /// The display name recorded for a user, if the user is known.
    pub open spec fn member_name(&self, id: u64) -> Option<Seq<char>> {
        match self.member_ids().index_of_first(id) {
            Some(i) => Some(self.all_members@[i].display_name@),
            None => None,
        }
    }

    /// Whether a user is a known member.
    pub open spec fn is_member(&self, id: u64) -> bool {
        self.member_ids().contains(id)
    }

    /// The member ids recorded for a project, if the project is known.
    pub open spec fn project_members(&self, name: Seq<char>) -> Option<Seq<u64>> {
        match self.project_names().index_of_first(name) {
            Some(i) => Some(self.project_mapping@[i].member_ids@),
            None => None,
        }
    }

    /// Whether a user is recorded as a member of a project.
    pub open spec fn in_project(&self, name: Seq<char>, id: u64) -> bool {
        match self.project_members(name) {
            Some(ids) => ids.contains(id),
            None => false,
        }
    }

    /// The project manager recorded for a project, if any.
    pub open spec fn pm_of(&self, name: Seq<char>) -> Option<u64> {
        match self.pm_project_names().index_of_first(name) {
            Some(i) => Some(self.project_pms@[i].pm_id),
            None => None,
        }
    }

    /// The position of a user in `all_members`.
    pub fn find_member(&self, id: u64) -> (r: Option<usize>)
        ensures
            match r {
                Some(i) => i < self.all_members@.len() && self.member_ids().index_of_first(id) == Some(i as int),
                None => self.member_ids().index_of_first(id) is None,
            },
    {
        proof {
            self.member_ids().index_of_first_ensures(id);
        }
        let n = self.all_members.len();
        let mut i: usize = 0;
        while i < n
            invariant
                n == self.all_members@.len(),
                i <= n,
                forall|j: int| 0 <= j < i ==> self.member_ids()[j] != id,
            decreases n - i,
        {
            if self.all_members[i].user_id == id {
                proof {
                    self.member_ids().index_of_first_ensures(id);
                    assert(self.member_ids()[i as int] == id);
                    assert(self.member_ids().contains(id));
                    let k = self.member_ids().index_of_first(id).unwrap();
                    assert(!(k < i) && !(i < k));
                }
                return Some(i);
            }
            i = i + 1;
        }
        proof {
            self.member_ids().index_of_first_ensures(id);
            if self.member_ids().contains(id) {
                let k = self.member_ids().index_of_first(id).unwrap();
                assert(self.member_ids()[k] != id);
            }
        }
        None
    }

    /// The display name recorded for a user.
    pub fn member_display_name(&self, id: u64) -> (r: Option<String>)
        ensures
            opt_view(r) == self.member_name(id),
    {
        match self.find_member(id) {
            Some(i) => Some(self.all_members[i].display_name.clone()),
            None => None,
        }
    }

    /// Whether a user is a known member.
    pub fn has_member(&self, id: u64) -> (r: bool)
        ensures
            r == self.is_member(id),
    {
        proof {
            self.member_ids().index_of_first_ensures(id);
        }
        self.find_member(id).is_some()
    }

    /// The position of a project in `project_mapping`.
    pub fn find_project(&self, name: &String) -> (r: Option<usize>)
        ensures
            match r {
                Some(i) => i < self.project_mapping@.len() && self.project_names().index_of_first(name@) == Some(i as int),
                None => self.project_names().index_of_first(name@) is None,
            },
    {
        proof {
            self.project_names().index_of_first_ensures(name@);
        }
        let n = self.project_mapping.len();
        let mut i: usize = 0;
        while i < n
            invariant
                n == self.project_mapping@.len(),
                i <= n,
                forall|j: int| 0 <= j < i ==> self.project_names()[j] != name@,
            decreases n - i,
        {
            if self.project_mapping[i].name == *name {
                proof {
                    self.project_names().index_of_first_ensures(name@);
                    assert(self.project_names()[i as int] == name@);
                    assert(self.project_names().contains(name@));
                    let k = self.project_names().index_of_first(name@).unwrap();
                    assert(!(k < i) && !(i < k));
                }
                return Some(i);
            }
            i = i + 1;
        }
        proof {
            self.project_names().index_of_first_ensures(name@);
            if self.project_names().contains(name@) {
                let k = self.project_names().index_of_first(name@).unwrap();
                assert(self.project_names()[k] != name@);
            }
        }
        None
    }

    /// Whether a project of this name is known, as `project_mapping.contains_key(name)`.
    pub fn has_project(&self, name: &String) -> (r: bool)
        ensures
            r == self.project_names().contains(name@),
            r == (self.project_members(name@) is Some),
    {
        proof {
            self.project_names().index_of_first_ensures(name@);
        }
        self.find_project(name).is_some()
    }

    /// Whether a user is recorded as a member of a project.
    pub fn project_has_member(&self, name: &String, id: u64) -> (r: bool)
        ensures
            r == self.in_project(name@, id),
    {
        match self.find_project(name) {
            Some(i) => {
                let ids = &self.project_mapping[i].member_ids;
                assert(self.project_members(name@) == Some(ids@));
                let n = ids.len();
                let mut j: usize = 0;
                while j < n
                    invariant
                        self.project_members(name@) == Some(ids@),
                        n == ids@.len(),
                        j <= n,
                        forall|t: int| 0 <= t < j ==> ids@[t] != id,
                    decreases n - j,
                {
                    if ids[j] == id {
                        assert(ids@[j as int] == id);
                        return true;
                    }
                    j = j + 1;
                }
                false
            },
            None => false,
        }
    }

    /// The project manager recorded for a project.
    pub fn project_pm(&self, name: &String) -> (r: Option<u64>)
        ensures
            r == self.pm_of(name@),
    {
        proof {
            self.pm_project_names().index_of_first_ensures(name@);
        }
        let n = self.project_pms.len();
        let mut i: usize = 0;
        while i < n
            invariant
                n == self.project_pms@.len(),
                i <= n,
                forall|j: int| 0 <= j < i ==> self.pm_project_names()[j] != name@,
            decreases n - i,
        {
            if self.project_pms[i].project == *name {
                proof {
                    self.pm_project_names().index_of_first_ensures(name@);
                    assert(self.pm_project_names()[i as int] == name@);
                    assert(self.pm_project_names().contains(name@));
                    let k = self.pm_project_names().index_of_first(name@).unwrap();
                    assert(!(k < i) && !(i < k));
                }
                return Some(self.project_pms[i].pm_id);
            }
            i = i + 1;
        }
        proof {
            self.pm_project_names().index_of_first_ensures(name@);
            if self.pm_project_names().contains(name@) {
                let k = self.pm_project_names().index_of_first(name@).unwrap();
                assert(self.pm_project_names()[k] != name@);
            }
        }
        None
    }
}

/// A change that the bot asks its cache to make.
pub enum CacheCommand {
    UpdateSingleMember { user_id: u64, display_name: String },
    AddProjectMembers { project_name: String, user_ids: Vec<u64> },
    RemoveProjectMembers { project_name: String, user_ids: Vec<u64> },
    RefreshAll,
}

/// The mathematical value of a `CacheCommand`.
pub enum CacheCommandView {
    UpdateSingleMember { user_id: u64, display_name: Seq<char> },
    AddProjectMembers { project_name: Seq<char>, user_ids: Seq<u64> },
    RemoveProjectMembers { project_name: Seq<char>, user_ids: Seq<u64> },
    RefreshAll,
}

impl View for CacheCommand {
    type V = CacheCommandView;

    open spec fn view(&self) -> CacheCommandView {
        match self {
            CacheCommand::UpdateSingleMember { user_id, display_name } =>
                CacheCommandView::UpdateSingleMember { user_id: *user_id, display_name: display_name@ },
            CacheCommand::AddProjectMembers { project_name, user_ids } =>
                CacheCommandView::AddProjectMembers { project_name: project_name@, user_ids: user_ids@ },
            CacheCommand::RemoveProjectMembers { project_name, user_ids } =>
                CacheCommandView::RemoveProjectMembers { project_name: project_name@, user_ids: user_ids@ },
            CacheCommand::RefreshAll => CacheCommandView::RefreshAll,
        }
    }
}

/// The name Discord shows for a member: the server nickname, else the global
/// display name, else the user name (as serenity's `Member::display_name`).
pub open spec fn shown_name(nick: Option<Seq<char>>, global_name: Option<Seq<char>>, name: Seq<char>) -> Seq<char> {
    match nick {
        Some(n) => n,
        None => match global_name {
            Some(g) => g,
            None => name,
        },
    }
}

/// Picks the name Discord shows for a member.
pub fn display_name(nick: &Option<String>, global_name: &Option<String>, name: &String) -> (r: String)
    ensures
        r@ == shown_name(opt_view(*nick), opt_view(*global_name), name@),
{
    match nick {
        Some(n) => n.clone(),
        None => match global_name {
            Some(g) => g.clone(),
            None => name.clone(),
        },
    }
}

/// The cache update sent when a member's nickname or roles change: the member's
/// shown name is recorded under their id.
pub fn member_update_notice(user_id: u64, nick: &Option<String>, global_name: &Option<String>, name: &String) -> (r: CacheCommand)
    ensures
        r@ == (CacheCommandView::UpdateSingleMember {
            user_id,
            display_name: shown_name(opt_view(*nick), opt_view(*global_name), name@),
        }),
{
    CacheCommand::UpdateSingleMember { user_id, display_name: display_name(nick, global_name, name) }
}

} // verus!
