use vstd::prelude::*;
use vstd::string::*;
use crate::cache::{BotCache, CacheCommand, CacheCommandView, MemberRecord};
use crate::category::{project_of_category, project_of_title};
use crate::permissions::{check_admin, find_role_named, is_admin, role_named, RoleRecord};
use crate::text::{joined, mention, mention_of, views_of, join, str_equal};

use crate::commands::registry::{make_argument, make_subcommand, member_command_spec, ArgumentSpec, ArgumentSpecView, CommandSpec, OptionKind, OptionSpec};
verus! {

broadcast use vstd::string::group_string_axioms;

// ---------------------------------------------------------------------------
// Texts of the member command
// ---------------------------------------------------------------------------

pub open spec fn msg_not_text_channel() -> Seq<char> {
    "❌ 이 명령어는 서버 텍스트 채널에서만 사용 가능합니다."@
}

pub open spec fn msg_not_in_category() -> Seq<char> {
    "❌ 이 명령어는 프로젝트 카테고리 내 채널에서만 사용 가능합니다."@
}

pub open spec fn msg_choose_subcommand() -> Seq<char> {
    "⚠️ 올바른 하위 명령어를 선택해주세요."@
}

pub open spec fn msg_pm_not_found() -> Seq<char> {
    "❌ 프로젝트 PM을 찾을 수 없습니다. 프로젝트 카테고리에서 명령어를 사용해주세요."@
}

pub open spec fn msg_not_allowed() -> Seq<char> {
    "❌ 이 명령어를 사용할 권한이 없습니다. (PM 혹은 관리자만 가능)"@
}

pub open spec fn msg_self_target() -> Seq<char> {
    "❌ 본인을 추가하거나 제거할 수 없습니다."@
}

pub open spec fn msg_nothing_changed() -> Seq<char> {
    "❌ 변경된 정보가 없거나 적용할 대상 유저가 없습니다."@
}

/// The answer when the server has no role named after the project.
pub open spec fn msg_role_not_found(project: Seq<char>) -> Seq<char> {
    "❌ 서버에서 '"@ + project + "' 프로젝트에 해당하는 역할을 찾을 수 없습니다."@
}

/// The answer after members were added.
pub open spec fn msg_added(project: Seq<char>, users: Seq<u64>) -> Seq<char> {
    "✅ "@ + joined(users.map_values(|u: u64| mention_of(u)), ", "@) + " 님이 '"@ + project
        + "' 프로젝트 멤버로 추가되었습니다!"@
}

/// The answer after members were removed.
pub open spec fn msg_removed(project: Seq<char>, users: Seq<u64>) -> Seq<char> {
    "🗑️ "@ + joined(users.map_values(|u: u64| mention_of(u)), ", "@) + " 님이 '"@ + project
        + "' 프로젝트 멤버에서 제외되었습니다."@
}

/// Writes the answer for a role that could not be found.
pub fn role_not_found_text(project: &str) -> (r: String)
    ensures
        r@ == msg_role_not_found(project@),
{
    let mut r = "❌ 서버에서 '".to_owned();
    r.append(project);
    r.append("' 프로젝트에 해당하는 역할을 찾을 수 없습니다.");
    r
}

/// The mentions of a list of users joined with `, `.
pub fn mention_list(users: &Vec<u64>) -> (r: String)
    ensures
        r@ == joined(users@.map_values(|u: u64| mention_of(u)), ", "@),
{
    let mut ms: Vec<String> = Vec::new();
    let n = users.len();
    let mut i: usize = 0;
    while i < n
        invariant
            n == users@.len(),
            i <= n,
            ms@.len() == i,
            forall|j: int| 0 <= j < i ==> #[trigger] ms@[j]@ == mention_of(users@[j]),
        decreases n - i,
    {
        let m = mention(users[i]);
        ms.push(m);
        i = i + 1;
    }
    let r = join(&ms, ", ");
    assert(views_of(ms@) =~= users@.map_values(|u: u64| mention_of(u)));
    r
}

/// Writes the answer after members were added (`add`) or removed.
pub fn change_report_text(add: bool, project: &str, users: &Vec<u64>) -> (r: String)
    ensures
        r@ == (if add {
            msg_added(project@, users@)
        } else {
            msg_removed(project@, users@)
        }),
{
    let ms = mention_list(users);
    let mut r = if add {
        "✅ ".to_owned()
    } else {
        "🗑️ ".to_owned()
    };
    r.append(ms.as_str());
    r.append(" 님이 '");
    r.append(project);
    if add {
        r.append("' 프로젝트 멤버로 추가되었습니다!");
    } else {
        r.append("' 프로젝트 멤버에서 제외되었습니다.");
    }
    r
}

// ---------------------------------------------------------------------------
// The member list
// ---------------------------------------------------------------------------

/// The user ids of a list of member records, in order.
pub open spec fn record_ids(ms: Seq<MemberRecord>) -> Seq<u64> {
    ms.map_values(|m: MemberRecord| m.user_id)
}

/// The members listed after the PM: every known member other than the PM whose
/// id the project records, once each (by the first record of the id), in the
/// order of `all_members`.
pub open spec fn listed_others(ms: Seq<MemberRecord>, c: BotCache, project: Seq<char>, pm: u64) -> Seq<Seq<char>>
    decreases ms.len(),
{
    if ms.len() == 0 {
        Seq::empty()
    } else {
        let rest = listed_others(ms.drop_last(), c, project, pm);
        if ms.last().user_id != pm && c.in_project(project, ms.last().user_id) && !record_ids(
            ms.drop_last(),
        ).contains(ms.last().user_id) {
            rest.push(ms.last().display_name@)
        } else {
            rest
        }
    }
}

/// The names in a project's member list: its PM first, then the others.
pub open spec fn listed_names(c: BotCache, project: Seq<char>, pm: u64) -> Seq<Seq<char>> {
    seq![c.member_name(pm).unwrap()] + listed_others(c.all_members@, c, project, pm)
}

/// One bullet line per name.
pub open spec fn bullet_lines(names: Seq<Seq<char>>) -> Seq<char>
    decreases names.len(),
{
    if names.len() == 0 {
        Seq::empty()
    } else {
        bullet_lines(names.drop_last()) + "• "@ + names.last() + "\n"@
    }
}

/// The answer to `/member list`: a header naming the project, then one bullet
/// line per listed member.
pub open spec fn msg_member_list(c: BotCache, project: Seq<char>, pm: u64) -> Seq<char> {
    "📌 **'"@ + project + "' 프로젝트 참여 인원 명단**\n"@ + bullet_lines(listed_names(c, project, pm))
}

proof fn lemma_bullet_push(names: Seq<Seq<char>>, x: Seq<char>)
    ensures
        bullet_lines(names.push(x)) == bullet_lines(names) + "• "@ + x + "\n"@,
{
    assert(names.push(x).drop_last() =~= names);
}

/// Writes the member list of a project whose PM is `pm`.
pub fn member_list_text(c: &BotCache, project: &String, pm: u64) -> (r: String)
    requires
        c.is_member(pm),
    ensures
        r@ == msg_member_list(*c, project@, pm),
{
    proof {
        c.member_ids().index_of_first_ensures(pm);
    }
    let pm_name = c.member_display_name(pm);
    let pm_name = match pm_name {
        Some(n) => n,
        None => String::new(),
    };
    let mut r = "📌 **'".to_owned();
    r.append(project.as_str());
    r.append("' 프로젝트 참여 인원 명단**\n");
    let ghost head = r@;
    r.append("• ");
    r.append(pm_name.as_str());
    r.append("\n");
    proof {
        lemma_bullet_push(Seq::empty(), pm_name@);
        assert(Seq::<Seq<char>>::empty().push(pm_name@) =~= seq![pm_name@]);
        assert(bullet_lines(Seq::<Seq<char>>::empty()) =~= Seq::<char>::empty());
    }
    let n = c.all_members.len();
    let mut i: usize = 0;
    let mut seen: Vec<u64> = Vec::new();
    while i < n
        invariant
            n == c.all_members@.len(),
            i <= n,
            seen@ == record_ids(c.all_members@.take(i as int)),
            head == "📌 **'"@ + project@ + "' 프로젝트 참여 인원 명단**\n"@,
            pm_name@ == c.member_name(pm).unwrap(),
            r@ == head + bullet_lines(
                seq![pm_name@] + listed_others(c.all_members@.take(i as int), *c, project@, pm),
            ),
        decreases n - i,
    {
        let ghost prev = listed_others(c.all_members@.take(i as int), *c, project@, pm);
        assert(c.all_members@.take(i + 1).drop_last() =~= c.all_members@.take(i as int));
        let m = &c.all_members[i];
        assert(c.all_members@.take(i + 1).last() == c.all_members@[i as int]);
        let repeated = contains_id(&seen, m.user_id);
        if m.user_id != pm && c.project_has_member(project, m.user_id) && !repeated {
            r.append("• ");
            r.append(m.display_name.as_str());
            r.append("\n");
            proof {
                lemma_bullet_push(seq![pm_name@] + prev, m.display_name@);
                assert((seq![pm_name@] + prev).push(m.display_name@) =~= seq![pm_name@] + prev.push(
                    m.display_name@,
                ));
            }
        }
        seen.push(m.user_id);
        assert(record_ids(c.all_members@.take(i + 1)) =~= record_ids(c.all_members@.take(i as int)).push(m.user_id));
        i = i + 1;
    }
    assert(c.all_members@.take(n as int) =~= c.all_members@);
    r
}

// ---------------------------------------------------------------------------
// Choosing whom to add or remove
// ---------------------------------------------------------------------------

/// `ids` with every repeat removed, each id kept where it first occurs.
pub open spec fn without_repeats(ids: Seq<u64>) -> Seq<u64>
    decreases ids.len(),
{
    if ids.len() == 0 {
        Seq::empty()
    } else {
        let rest = without_repeats(ids.drop_last());
        if rest.contains(ids.last()) {
            rest
        } else {
            rest.push(ids.last())
        }
    }
}

/// A user can be added to (`add`) or removed from a project: the user is a known
/// member, and is not yet (for adding) or is already (for removing) recorded in
/// the project.
pub open spec fn eligible(c: BotCache, project: Seq<char>, add: bool, user: u64) -> bool {
    c.is_member(user) && (if add {
        !c.in_project(project, user)
    } else {
        c.in_project(project, user)
    })
}

/// The eligible users of `ids`, in order.
pub open spec fn eligible_of(c: BotCache, project: Seq<char>, add: bool, ids: Seq<u64>) -> Seq<u64>
    decreases ids.len(),
{
    if ids.len() == 0 {
        Seq::empty()
    } else {
        let rest = eligible_of(c, project, add, ids.drop_last());
        if eligible(c, project, add, ids.last()) {
            rest.push(ids.last())
        } else {
            rest
        }
    }
}

/// The users whose role is to be changed: the requested users, each once (where
/// first named), keeping the eligible ones.
pub open spec fn role_change_targets(c: BotCache, project: Seq<char>, add: bool, ids: Seq<u64>) -> Seq<u64> {
    eligible_of(c, project, add, without_repeats(ids))
}

/// Removes repeated ids, keeping each where it first occurs.
pub fn remove_repeats(ids: &Vec<u64>) -> (r: Vec<u64>)
    ensures
        r@ == without_repeats(ids@),
{
    let mut r: Vec<u64> = Vec::new();
    let n = ids.len();
    let mut i: usize = 0;
    while i < n
        invariant
            n == ids@.len(),
            i <= n,
            r@ == without_repeats(ids@.take(i as int)),
        decreases n - i,
    {
        assert(ids@.take(i + 1).drop_last() =~= ids@.take(i as int));
        assert(ids@.take(i + 1).last() == ids@[i as int]);
        if !contains_id(&r, ids[i]) {
            r.push(ids[i]);
        }
        i = i + 1;
    }
    assert(ids@.take(n as int) =~= ids@);
    r
}

/// The users whose project role is to be changed, in order.
pub fn select_role_changes(c: &BotCache, project: &String, add: bool, ids: &Vec<u64>) -> (r: Vec<u64>)
    ensures
        r@ == role_change_targets(*c, project@, add, ids@),
{
    let d = remove_repeats(ids);
    let mut r: Vec<u64> = Vec::new();
    let n = d.len();
    let mut i: usize = 0;
    while i < n
        invariant
            n == d@.len(),
            i <= n,
            r@ == eligible_of(*c, project@, add, d@.take(i as int)),
        decreases n - i,
    {
        assert(d@.take(i + 1).drop_last() =~= d@.take(i as int));
        let u = d[i];
        let known = c.has_member(u);
        let recorded = c.project_has_member(project, u);
        if known && (if add { !recorded } else { recorded }) {
            r.push(u);
        }
        i = i + 1;
    }
    assert(d@.take(n as int) =~= d@);
    r
}

// ---------------------------------------------------------------------------
// The `/member` command as a state machine
// ---------------------------------------------------------------------------

/// What the bot knows of a `/member` interaction when it starts.
pub struct MemberRequest {
    /// The user who ran the command.
    pub user_id: u64,
    /// The channel the command was run in.
    pub channel_id: u64,
    /// The server, if the command was run in one.
    pub guild_id: Option<u64>,
    /// The role ids of the user as a server member, if the interaction has a member.
    pub member_role_ids: Option<Vec<u64>>,
    /// The name of the chosen subcommand, if any.
    pub subcommand: Option<String>,
    /// The users given as the subcommand's options, in order.
    pub target_ids: Vec<u64>,
}

/// The subcommand of a `/member` request.
pub enum MemberSubcommand {
    Missing,
    List,
    Add,
    Remove,
    Other,
}

/// Which subcommand the request names.
pub open spec fn member_subcommand(req: MemberRequest) -> MemberSubcommand {
    match req.subcommand {
        None => MemberSubcommand::Missing,
        Some(name) => if name@ == "list"@ {
            MemberSubcommand::List
        } else if name@ == "add"@ {
            MemberSubcommand::Add
        } else if name@ == "remove"@ {
            MemberSubcommand::Remove
        } else {
            MemberSubcommand::Other
        },
    }
}

/// What the caller is to do next for a `/member` interaction.
pub enum MemberAction {
    /// Acknowledge the interaction so that the answer may come later.
    Defer,
    /// Look up the channel the command was run in.
    FetchChannel { channel_id: u64 },
    /// Look up the category channel and report its name.
    FetchCategory { category_id: u64 },
    /// Look up the server: its owner and its roles.
    FetchGuild { guild_id: u64 },
    /// List the server's roles.
    FetchRoles { guild_id: u64 },
    /// Give (`add`) or take away the role of a user.
    ChangeRole { add: bool, guild_id: u64, user_id: u64, role_id: u64 },
    /// Replace the deferred answer with this text.
    Reply { text: String },
    /// Send this change to the cache.
    Notify { command: CacheCommand },
    /// Nothing more to do.
    Finish,
}

/// The mathematical value of a `MemberAction`.
pub enum MemberActionView {
    Defer,
    FetchChannel { channel_id: u64 },
    FetchCategory { category_id: u64 },
    FetchGuild { guild_id: u64 },
    FetchRoles { guild_id: u64 },
    ChangeRole { add: bool, guild_id: u64, user_id: u64, role_id: u64 },
    Reply { text: Seq<char> },
    Notify { command: CacheCommandView },
    Finish,
}

impl View for MemberAction {
    type V = MemberActionView;

    open spec fn view(&self) -> MemberActionView {
        match self {
            MemberAction::Defer => MemberActionView::Defer,
            MemberAction::FetchChannel { channel_id } => MemberActionView::FetchChannel { channel_id: *channel_id },
            MemberAction::FetchCategory { category_id } => MemberActionView::FetchCategory { category_id: *category_id },
            MemberAction::FetchGuild { guild_id } => MemberActionView::FetchGuild { guild_id: *guild_id },
            MemberAction::FetchRoles { guild_id } => MemberActionView::FetchRoles { guild_id: *guild_id },
            MemberAction::ChangeRole { add, guild_id, user_id, role_id } => MemberActionView::ChangeRole {
                add: *add,
                guild_id: *guild_id,
                user_id: *user_id,
                role_id: *role_id,
            },
            MemberAction::Reply { text } => MemberActionView::Reply { text: text@ },
            MemberAction::Notify { command } => MemberActionView::Notify { command: command@ },
            MemberAction::Finish => MemberActionView::Finish,
        }
    }
}

/// What the caller reports back after doing an action.
pub enum MemberEvent {
    /// The action was done and gave nothing back.
    Acknowledged,
    /// The channel: whether it is a server channel, and its category.
    Channel { in_guild: bool, parent_id: Option<u64> },
    /// The name of the category channel.
    Category { title: String },
    /// The server's owner and roles.
    Guild { owner_id: u64, roles: Vec<RoleRecord> },
    /// The server's roles, or `None` when they could not be listed.
    Roles { listed: Option<Vec<RoleRecord>> },
    /// Whether the role change succeeded.
    RoleChanged { ok: bool },
}

/// Where a `/member` interaction stands.
pub enum MemberState {
    Starting,
    AwaitingChannel,
    AwaitingCategory,
    AwaitingGuild { project: String, add: bool, guild_id: u64 },
    AwaitingRoles { project: String, add: bool, guild_id: u64 },
    Changing {
        project: String,
        add: bool,
        guild_id: u64,
        role_id: u64,
        candidates: Vec<u64>,
        next: usize,
        processed: Vec<u64>,
    },
    Reported { command: CacheCommand },
    Closing,
    Finished,
}

/// The mathematical value of a `MemberState`.
pub enum MemberStateView {
    Starting,
    AwaitingChannel,
    AwaitingCategory,
    AwaitingGuild { project: Seq<char>, add: bool, guild_id: u64 },
    AwaitingRoles { project: Seq<char>, add: bool, guild_id: u64 },
    Changing {
        project: Seq<char>,
        add: bool,
        guild_id: u64,
        role_id: u64,
        candidates: Seq<u64>,
        next: nat,
        processed: Seq<u64>,
    },
    Reported { command: CacheCommandView },
    Closing,
    Finished,
}

impl View for MemberState {
    type V = MemberStateView;

    open spec fn view(&self) -> MemberStateView {
        match self {
            MemberState::Starting => MemberStateView::Starting,
            MemberState::AwaitingChannel => MemberStateView::AwaitingChannel,
            MemberState::AwaitingCategory => MemberStateView::AwaitingCategory,
            MemberState::AwaitingGuild { project, add, guild_id } => MemberStateView::AwaitingGuild {
                project: project@,
                add: *add,
                guild_id: *guild_id,
            },
            MemberState::AwaitingRoles { project, add, guild_id } => MemberStateView::AwaitingRoles {
                project: project@,
                add: *add,
                guild_id: *guild_id,
            },
            MemberState::Changing { project, add, guild_id, role_id, candidates, next, processed } =>
                MemberStateView::Changing {
                project: project@,
                add: *add,
                guild_id: *guild_id,
                role_id: *role_id,
                candidates: candidates@,
                next: *next as nat,
                processed: processed@,
            },
            MemberState::Reported { command } => MemberStateView::Reported { command: command@ },
            MemberState::Closing => MemberStateView::Closing,
            MemberState::Finished => MemberStateView::Finished,
        }
    }
}

/// The request's user may change a project's members: they are the project's
/// PM, the server's owner, or hold a role that grants administrator.
pub open spec fn may_manage(
    c: BotCache,
    req: MemberRequest,
    project: Seq<char>,
    owner_id: u64,
    member_roles: Seq<u64>,
    guild_roles: Seq<RoleRecord>,
) -> bool {
    c.pm_of(project) == Some(req.user_id) || is_admin(owner_id, req.user_id, member_roles, guild_roles)
}

/// The step once the category's name is known.
pub open spec fn member_after_category(c: BotCache, req: MemberRequest, project: Seq<char>) -> (MemberStateView, MemberActionView) {
    match member_subcommand(req) {
        MemberSubcommand::Missing => (MemberStateView::Closing, MemberActionView::Reply { text: msg_choose_subcommand() }),
        MemberSubcommand::List => match c.pm_of(project) {
            None => (MemberStateView::Closing, MemberActionView::Reply { text: msg_pm_not_found() }),
            Some(pm) => (MemberStateView::Closing, MemberActionView::Reply { text: msg_member_list(c, project, pm) }),
        },
        MemberSubcommand::Add | MemberSubcommand::Remove => match req.guild_id {
            None => (MemberStateView::Finished, MemberActionView::Finish),
            Some(g) => (
                MemberStateView::AwaitingGuild { project, add: member_subcommand(req) is Add, guild_id: g },
                MemberActionView::FetchGuild { guild_id: g },
            ),
        },
        MemberSubcommand::Other => (MemberStateView::Finished, MemberActionView::Finish),
    }
}

/// The step once the server's roles are listed.
pub open spec fn member_after_roles(
    c: BotCache,
    req: MemberRequest,
    project: Seq<char>,
    add: bool,
    guild_id: u64,
    roles: Option<Vec<RoleRecord>>,
) -> (MemberStateView, MemberActionView) {
    let role = match roles {
        Some(rs) => role_named(rs@, project),
        None => None,
    };
    match role {
        None => (MemberStateView::Closing, MemberActionView::Reply { text: msg_role_not_found(project) }),
        Some(role_id) => if req.target_ids@.contains(req.user_id) {
            (MemberStateView::Closing, MemberActionView::Reply { text: msg_self_target() })
        } else {
            let cands = role_change_targets(c, project, add, req.target_ids@);
            if cands.len() == 0 {
                (MemberStateView::Closing, MemberActionView::Reply { text: msg_nothing_changed() })
            } else {
                (
                    MemberStateView::Changing {
                        project,
                        add,
                        guild_id,
                        role_id,
                        candidates: cands,
                        next: 0,
                        processed: Seq::empty(),
                    },
                    MemberActionView::ChangeRole { add, guild_id, user_id: cands[0], role_id },
                )
            }
        },
    }
}

/// The cache change that reports users added to (`add`) or removed from a project.
pub open spec fn membership_notice(add: bool, project: Seq<char>, users: Seq<u64>) -> CacheCommandView {
    if add {
        CacheCommandView::AddProjectMembers { project_name: project, user_ids: users }
    } else {
        CacheCommandView::RemoveProjectMembers { project_name: project, user_ids: users }
    }
}

/// The step once a role change is done.
pub open spec fn member_after_change(
    project: Seq<char>,
    add: bool,
    guild_id: u64,
    role_id: u64,
    cands: Seq<u64>,
    next: nat,
    processed: Seq<u64>,
    ok: bool,
) -> (MemberStateView, MemberActionView) {
    let done = if ok {
        processed.push(cands[next as int])
    } else {
        processed
    };
    if next + 1 < cands.len() {
        (
            MemberStateView::Changing { project, add, guild_id, role_id, candidates: cands, next: next + 1, processed: done },
            MemberActionView::ChangeRole { add, guild_id, user_id: cands[next + 1 as int], role_id },
        )
    } else if done.len() == 0 {
        (MemberStateView::Closing, MemberActionView::Reply { text: msg_nothing_changed() })
    } else {
        (
            MemberStateView::Reported { command: membership_notice(add, project, done) },
            MemberActionView::Reply {
                text: if add {
                    msg_added(project, done)
                } else {
                    msg_removed(project, done)
                },
            },
        )
    }
}

/// How a `/member` interaction moves on when an event comes in; an event that
/// does not fit the state ends the interaction.
pub open spec fn member_next(c: BotCache, req: MemberRequest, s: MemberState, e: MemberEvent) -> (MemberStateView, MemberActionView) {
    match s {
        MemberState::Starting => match e {
            MemberEvent::Acknowledged => (
                MemberStateView::AwaitingChannel,
                MemberActionView::FetchChannel { channel_id: req.channel_id },
            ),
            _ => (MemberStateView::Finished, MemberActionView::Finish),
        },
        MemberState::AwaitingChannel => match e {
            MemberEvent::Channel { in_guild, parent_id } => if !in_guild {
                (MemberStateView::Closing, MemberActionView::Reply { text: msg_not_text_channel() })
            } else {
                match parent_id {
                    None => (MemberStateView::Closing, MemberActionView::Reply { text: msg_not_in_category() }),
                    Some(cat) => (MemberStateView::AwaitingCategory, MemberActionView::FetchCategory { category_id: cat }),
                }
            },
            _ => (MemberStateView::Finished, MemberActionView::Finish),
        },
        MemberState::AwaitingCategory => match e {
            MemberEvent::Category { title } => member_after_category(c, req, project_of_title(title@)),
            _ => (MemberStateView::Finished, MemberActionView::Finish),
        },
        MemberState::AwaitingGuild { project, add, guild_id } => match e {
            MemberEvent::Guild { owner_id, roles } => match req.member_role_ids {
                None => (MemberStateView::Finished, MemberActionView::Finish),
                Some(mr) => if may_manage(c, req, project@, owner_id, mr@, roles@) {
                    (
                        MemberStateView::AwaitingRoles { project: project@, add, guild_id },
                        MemberActionView::FetchRoles { guild_id },
                    )
                } else {
                    (MemberStateView::Closing, MemberActionView::Reply { text: msg_not_allowed() })
                },
            },
            _ => (MemberStateView::Finished, MemberActionView::Finish),
        },
        MemberState::AwaitingRoles { project, add, guild_id } => match e {
            MemberEvent::Roles { listed } => member_after_roles(c, req, project@, add, guild_id, listed),
            _ => (MemberStateView::Finished, MemberActionView::Finish),
        },
        MemberState::Changing { project, add, guild_id, role_id, candidates, next, processed } => match e {
            MemberEvent::RoleChanged { ok } => member_after_change(
                project@,
                add,
                guild_id,
                role_id,
                candidates@,
                next as nat,
                processed@,
                ok,
            ),
            _ => (MemberStateView::Finished, MemberActionView::Finish),
        },
        MemberState::Reported { command } => match e {
            MemberEvent::Acknowledged => (MemberStateView::Closing, MemberActionView::Notify { command: command@ }),
            _ => (MemberStateView::Finished, MemberActionView::Finish),
        },
        MemberState::Closing => (MemberStateView::Finished, MemberActionView::Finish),
        MemberState::Finished => (MemberStateView::Finished, MemberActionView::Finish),
    }
}

/// A state is well formed: while changing roles, the next user to handle is
/// one of the candidates.
pub open spec fn member_state_wf(s: MemberState) -> bool {
    match s {
        MemberState::Changing { candidates, next, .. } => next < candidates@.len(),
        _ => true,
    }
}

/// The request asks for the member list of a project whose PM is not a known
/// member (the one input on which listing members cannot go on).
pub open spec fn member_list_blocked(c: BotCache, req: MemberRequest, s: MemberState, e: MemberEvent) -> bool {
    &&& s is AwaitingCategory
    &&& e matches MemberEvent::Category { title }
    &&& member_subcommand(req) is List
    &&& c.pm_of(project_of_title(title@)) matches Some(pm)
    &&& !c.is_member(pm)
}

/// Whether `member_step` cannot take this event: the member list was asked
/// for, and the project's PM is not a known member.
pub fn member_list_is_blocked(c: &BotCache, req: &MemberRequest, s: &MemberState, e: &MemberEvent) -> (r: bool)
    ensures
        r == member_list_blocked(*c, *req, *s, *e),
{
    match (s, e) {
        (MemberState::AwaitingCategory, MemberEvent::Category { title }) => {
            match read_member_subcommand(req) {
                MemberSubcommand::List => {
                    let project = project_of_category(title.as_str());
                    match c.project_pm(&project) {
                        Some(pm) => !c.has_member(pm),
                        None => false,
                    }
                },
                _ => false,
            }
        },
        _ => false,
    }
}

/// The first step of a `/member` interaction: defer the answer.
pub fn member_start() -> (r: (MemberState, MemberAction))
    ensures
        r.0@ == MemberStateView::Starting,
        r.1@ == MemberActionView::Defer,
{
    (MemberState::Starting, MemberAction::Defer)
}

fn read_member_subcommand(req: &MemberRequest) -> (r: MemberSubcommand)
    ensures
        r == member_subcommand(*req),
{
    match &req.subcommand {
        None => MemberSubcommand::Missing,
        Some(name) => {
            if str_equal(name.as_str(), "list") {
                MemberSubcommand::List
            } else if str_equal(name.as_str(), "add") {
                MemberSubcommand::Add
            } else if str_equal(name.as_str(), "remove") {
                MemberSubcommand::Remove
            } else {
                MemberSubcommand::Other
            }
        },
    }
}

fn reply(text: String) -> (r: (MemberState, MemberAction))
    ensures
        r.0@ == MemberStateView::Closing,
        r.1@ == (MemberActionView::Reply { text: text@ }),
{
    (MemberState::Closing, MemberAction::Reply { text })
}

fn finish() -> (r: (MemberState, MemberAction))
    ensures
        r.0@ == MemberStateView::Finished,
        r.1@ == MemberActionView::Finish,
{
    (MemberState::Finished, MemberAction::Finish)
}

fn step_after_category(c: &BotCache, req: &MemberRequest, title: &String) -> (r: (MemberState, MemberAction))
    requires
        member_subcommand(*req) is List ==> (c.pm_of(project_of_title(title@)) matches Some(pm) ==> c.is_member(pm)),
    ensures
        (r.0@, r.1@) == member_after_category(*c, *req, project_of_title(title@)),
{
    let project = project_of_category(title.as_str());
    match read_member_subcommand(req) {
        MemberSubcommand::Missing => reply("⚠️ 올바른 하위 명령어를 선택해주세요.".to_owned()),
        MemberSubcommand::List => match c.project_pm(&project) {
            None => reply("❌ 프로젝트 PM을 찾을 수 없습니다. 프로젝트 카테고리에서 명령어를 사용해주세요.".to_owned()),
            Some(pm) => reply(member_list_text(c, &project, pm)),
        },
        MemberSubcommand::Add => match req.guild_id {
            None => finish(),
            Some(g) => (MemberState::AwaitingGuild { project, add: true, guild_id: g }, MemberAction::FetchGuild { guild_id: g }),
        },
        MemberSubcommand::Remove => match req.guild_id {
            None => finish(),
            Some(g) => (MemberState::AwaitingGuild { project, add: false, guild_id: g }, MemberAction::FetchGuild { guild_id: g }),
        },
        MemberSubcommand::Other => finish(),
    }
}

fn contains_id(ids: &Vec<u64>, id: u64) -> (r: bool)
    ensures
        r == ids@.contains(id),
{
    let n = ids.len();
    let mut i: usize = 0;
    while i < n
        invariant
            n == ids@.len(),
            i <= n,
            forall|j: int| 0 <= j < i ==> ids@[j] != id,
        decreases n - i,
    {
        if ids[i] == id {
            assert(ids@[i as int] == id);
            return true;
        }
        i = i + 1;
    }
    false
}

fn step_after_roles(
    c: &BotCache,
    req: &MemberRequest,
    project: String,
    add: bool,
    guild_id: u64,
    roles: Option<Vec<RoleRecord>>,
) -> (r: (MemberState, MemberAction))
    ensures
        (r.0@, r.1@) == member_after_roles(*c, *req, project@, add, guild_id, roles),
        member_state_wf(r.0),
{
    let role = match &roles {
        Some(rs) => find_role_named(rs, &project),
        None => None,
    };
    match role {
        None => reply(role_not_found_text(project.as_str())),
        Some(role_id) => {
            if contains_id(&req.target_ids, req.user_id) {
                reply("❌ 본인을 추가하거나 제거할 수 없습니다.".to_owned())
            } else {
                let cands = select_role_changes(c, &project, add, &req.target_ids);
                if cands.len() == 0 {
                    reply("❌ 변경된 정보가 없거나 적용할 대상 유저가 없습니다.".to_owned())
                } else {
                    let first = cands[0];
                    let r = (
                        MemberState::Changing {
                            project,
                            add,
                            guild_id,
                            role_id,
                            candidates: cands,
                            next: 0,
                            processed: Vec::new(),
                        },
                        MemberAction::ChangeRole { add, guild_id, user_id: first, role_id },
                    );
                    assert(r.0@ == (MemberStateView::Changing {
                        project: project@,
                        add,
                        guild_id,
                        role_id,
                        candidates: role_change_targets(*c, project@, add, req.target_ids@),
                        next: 0,
                        processed: Seq::empty(),
                    }));
                    r
                }
            }
        },
    }
}

fn step_after_change(
    project: String,
    add: bool,
    guild_id: u64,
    role_id: u64,
    candidates: Vec<u64>,
    next: usize,
    processed: Vec<u64>,
    ok: bool,
) -> (r: (MemberState, MemberAction))
    requires
        next < candidates@.len(),
    ensures
        (r.0@, r.1@) == member_after_change(project@, add, guild_id, role_id, candidates@, next as nat, processed@, ok),
        member_state_wf(r.0),
{
    let mut done = processed;
    if ok {
        done.push(candidates[next]);
    }
    if next < candidates.len() - 1 {
        let user = candidates[next + 1];
        (
            MemberState::Changing { project, add, guild_id, role_id, candidates, next: next + 1, processed: done },
            MemberAction::ChangeRole { add, guild_id, user_id: user, role_id },
        )
    } else if done.len() == 0 {
        reply("❌ 변경된 정보가 없거나 적용할 대상 유저가 없습니다.".to_owned())
    } else {
        let text = change_report_text(add, project.as_str(), &done);
        let command = if add {
            CacheCommand::AddProjectMembers { project_name: project, user_ids: done }
        } else {
            CacheCommand::RemoveProjectMembers { project_name: project, user_ids: done }
        };
        (MemberState::Reported { command }, MemberAction::Reply { text })
    }
}

/// Moves a `/member` interaction on by one event: the next state and the next
/// action for the caller, exactly as `member_next` says.
pub fn member_step(c: &BotCache, req: &MemberRequest, s: MemberState, e: MemberEvent) -> (r: (MemberState, MemberAction))
    requires
        member_state_wf(s),
        !member_list_blocked(*c, *req, s, e),
    ensures
        (r.0@, r.1@) == member_next(*c, *req, s, e),
        member_state_wf(r.0),
{
    match s {
        MemberState::Starting => match e {
            MemberEvent::Acknowledged => (MemberState::AwaitingChannel, MemberAction::FetchChannel { channel_id: req.channel_id }),
            _ => finish(),
        },
        MemberState::AwaitingChannel => match e {
            MemberEvent::Channel { in_guild, parent_id } => {
                if !in_guild {
                    reply("❌ 이 명령어는 서버 텍스트 채널에서만 사용 가능합니다.".to_owned())
                } else {
                    match parent_id {
                        None => reply("❌ 이 명령어는 프로젝트 카테고리 내 채널에서만 사용 가능합니다.".to_owned()),
                        Some(cat) => (MemberState::AwaitingCategory, MemberAction::FetchCategory { category_id: cat }),
                    }
                }
            },
            _ => finish(),
        },
        MemberState::AwaitingCategory => match e {
            MemberEvent::Category { title } => step_after_category(c, req, &title),
            _ => finish(),
        },
        MemberState::AwaitingGuild { project, add, guild_id } => match e {
            MemberEvent::Guild { owner_id, roles } => match &req.member_role_ids {
                None => finish(),
                Some(mr) => {
                    let is_pm = match c.project_pm(&project) {
                        Some(pm) => pm == req.user_id,
                        None => false,
                    };
                    let admin = check_admin(owner_id, req.user_id, mr, &roles);
                    if is_pm || admin {
                        (MemberState::AwaitingRoles { project, add, guild_id }, MemberAction::FetchRoles { guild_id })
                    } else {
                        reply("❌ 이 명령어를 사용할 권한이 없습니다. (PM 혹은 관리자만 가능)".to_owned())
                    }
                },
            },
            _ => finish(),
        },
        MemberState::AwaitingRoles { project, add, guild_id } => match e {
            MemberEvent::Roles { listed } => step_after_roles(c, req, project, add, guild_id, listed),
            _ => finish(),
        },
        MemberState::Changing { project, add, guild_id, role_id, candidates, next, processed } => match e {
            MemberEvent::RoleChanged { ok } => step_after_change(
                project,
                add,
                guild_id,
                role_id,
                candidates,
                next,
                processed,
                ok,
            ),
            _ => finish(),
        },
        MemberState::Reported { command } => match e {
            MemberEvent::Acknowledged => (MemberState::Closing, MemberAction::Notify { command }),
            _ => finish(),
        },
        MemberState::Closing => finish(),
        MemberState::Finished => finish(),
    }
}

// ---------------------------------------------------------------------------
// Laws of the `/member` command
// ---------------------------------------------------------------------------

/// Every user left after removing repeats was among the requested users.
pub proof fn lemma_without_repeats_from_input(ids: Seq<u64>)
    ensures
        forall|i: int| 0 <= i < without_repeats(ids).len() ==> ids.contains(#[trigger] without_repeats(ids)[i]),
    decreases ids.len(),
{
    if ids.len() > 0 {
        lemma_without_repeats_from_input(ids.drop_last());
        let rest = without_repeats(ids.drop_last());
        assert forall|i: int| 0 <= i < without_repeats(ids).len() implies ids.contains(
            #[trigger] without_repeats(ids)[i],
        ) by {
            if i < rest.len() {
                let x = rest[i];
                let k = choose|k: int| 0 <= k < ids.drop_last().len() && ids.drop_last()[k] == x;
                assert(ids[k] == x);
            } else {
                assert(ids[ids.len() - 1] == ids.last());
            }
        }
    }
}

/// Removing repeats leaves each requested user exactly once: nothing occurs
/// twice, and every requested user is still there.
pub proof fn lemma_without_repeats_keeps_each_once(ids: Seq<u64>)
    ensures
        without_repeats(ids).no_duplicates(),
        forall|i: int| 0 <= i < ids.len() ==> without_repeats(ids).contains(#[trigger] ids[i]),
    decreases ids.len(),
{
    if ids.len() > 0 {
        let init = ids.drop_last();
        lemma_without_repeats_keeps_each_once(init);
        let rest = without_repeats(init);
        let r = without_repeats(ids);
        assert forall|i: int| 0 <= i < ids.len() implies r.contains(#[trigger] ids[i]) by {
            if i < ids.len() - 1 {
                assert(init[i] == ids[i]);
                assert(rest.contains(init[i]));
                let k = choose|k: int| 0 <= k < rest.len() && rest[k] == init[i];
                if !rest.contains(ids.last()) {
                    assert(r[k] == rest[k]);
                }
            } else if !rest.contains(ids.last()) {
                assert(r[rest.len() as int] == ids.last());
            }
        }
        if !rest.contains(ids.last()) {
            assert forall|a: int, b: int| 0 <= a < r.len() && 0 <= b < r.len() && a != b implies r[a] != r[b] by {
                if a < rest.len() && b < rest.len() {
                    assert(r[a] == rest[a] && r[b] == rest[b]);
                } else if a < rest.len() {
                    assert(r[a] == rest[a]);
                } else {
                    assert(r[b] == rest[b]);
                }
            }
        }
    }
}

/// The member list names the PM first (by the PM's cached name), then the
/// other listed members; nothing else.
pub proof fn lemma_list_starts_with_pm(c: BotCache, project: Seq<char>, pm: u64)
    requires
        c.is_member(pm),
    ensures
        listed_names(c, project, pm).len() == 1 + listed_others(c.all_members@, c, project, pm).len(),
        listed_names(c, project, pm)[0] == c.member_name(pm)->0,
        c.member_name(pm) is Some,
        listed_names(c, project, pm).subrange(1, listed_names(c, project, pm).len() as int) == listed_others(
            c.all_members@,
            c,
            project,
            pm,
        ),
{
    c.member_ids().index_of_first_ensures(pm);
    let l = listed_names(c, project, pm);
    assert(l.subrange(1, l.len() as int) =~= listed_others(c.all_members@, c, project, pm));
}

/// Nothing eligible is dropped: every requested user who is eligible is among
/// the users whose role is to be changed.
pub proof fn lemma_targets_complete(c: BotCache, project: Seq<char>, add: bool, ids: Seq<u64>)
    ensures
        forall|i: int|
            0 <= i < ids.len() && eligible(c, project, add, #[trigger] ids[i]) ==> role_change_targets(
                c,
                project,
                add,
                ids,
            ).contains(ids[i]),
{
    lemma_without_repeats_keeps_each_once(ids);
    lemma_eligible_of_complete(c, project, add, without_repeats(ids));
    assert forall|i: int| 0 <= i < ids.len() && eligible(c, project, add, #[trigger] ids[i]) implies role_change_targets(
        c,
        project,
        add,
        ids,
    ).contains(ids[i]) by {
        let d = without_repeats(ids);
        assert(d.contains(ids[i]));
        let k = choose|k: int| 0 <= k < d.len() && d[k] == ids[i];
        assert(eligible(c, project, add, d[k]));
    }
}

/// `eligible_of` keeps every eligible user it is given.
pub proof fn lemma_eligible_of_complete(c: BotCache, project: Seq<char>, add: bool, ids: Seq<u64>)
    ensures
        forall|i: int|
            0 <= i < ids.len() && eligible(c, project, add, #[trigger] ids[i]) ==> eligible_of(c, project, add, ids).contains(
                ids[i],
            ),
    decreases ids.len(),
{
    if ids.len() > 0 {
        let init = ids.drop_last();
        lemma_eligible_of_complete(c, project, add, init);
        let rest = eligible_of(c, project, add, init);
        let all = eligible_of(c, project, add, ids);
        assert forall|i: int| 0 <= i < ids.len() && eligible(c, project, add, #[trigger] ids[i]) implies all.contains(
            ids[i],
        ) by {
            if i < ids.len() - 1 {
                assert(init[i] == ids[i]);
                let k = choose|k: int| 0 <= k < rest.len() && rest[k] == init[i];
                if eligible(c, project, add, ids.last()) {
                    assert(all[k] == rest[k]);
                }
            } else {
                assert(all[rest.len() as int] == ids.last());
            }
        }
    }
}

/// The member list is complete and sound: it names a known member (other than
/// the PM) recorded in the project, by the first record of the member's id; and
/// every name after the PM's is such a member's.
pub proof fn lemma_listed_others_exact(ms: Seq<MemberRecord>, c: BotCache, project: Seq<char>, pm: u64)
    ensures
        forall|j: int|
            0 <= j < ms.len() && #[trigger] ms[j].user_id != pm && c.in_project(project, ms[j].user_id)
                && !record_ids(ms.take(j)).contains(ms[j].user_id) ==> listed_others(ms, c, project, pm).contains(
                ms[j].display_name@,
            ),
        forall|k: int|
            0 <= k < listed_others(ms, c, project, pm).len() ==> exists|j: int|
                0 <= j < ms.len() && ms[j].user_id != pm && c.in_project(project, ms[j].user_id) && ms[j].display_name@
                    == #[trigger] listed_others(ms, c, project, pm)[k],
    decreases ms.len(),
{
    if ms.len() > 0 {
        let init = ms.drop_last();
        lemma_listed_others_exact(init, c, project, pm);
        let rest = listed_others(init, c, project, pm);
        let all = listed_others(ms, c, project, pm);
        let keep = ms.last().user_id != pm && c.in_project(project, ms.last().user_id) && !record_ids(init).contains(
            ms.last().user_id,
        );
        assert forall|j: int|
            0 <= j < ms.len() && #[trigger] ms[j].user_id != pm && c.in_project(project, ms[j].user_id)
                && !record_ids(ms.take(j)).contains(ms[j].user_id) implies all.contains(ms[j].display_name@) by {
            if j < ms.len() - 1 {
                assert(init[j] == ms[j]);
                assert(init.take(j) =~= ms.take(j));
                let k = choose|k: int| 0 <= k < rest.len() && rest[k] == init[j].display_name@;
                if keep {
                    assert(all[k] == rest[k]);
                }
            } else {
                assert(ms.take(j) =~= init);
                assert(all[rest.len() as int] == ms.last().display_name@);
            }
        }
        assert forall|k: int| 0 <= k < all.len() implies exists|j: int|
            0 <= j < ms.len() && ms[j].user_id != pm && c.in_project(project, ms[j].user_id) && ms[j].display_name@
                == #[trigger] all[k] by {
            if k < rest.len() {
                let j = choose|j: int|
                    0 <= j < init.len() && init[j].user_id != pm && c.in_project(project, init[j].user_id)
                        && init[j].display_name@ == rest[k];
                assert(ms[j] == init[j]);
                if keep {
                    assert(all[k] == rest[k]);
                }
            } else {
                assert(ms[ms.len() - 1] == ms.last());
            }
        }
    }
}

/// Every user kept by `eligible_of` is eligible and was among the given users.
pub proof fn lemma_eligible_of_sound(c: BotCache, project: Seq<char>, add: bool, ids: Seq<u64>)
    ensures
        forall|i: int|
            0 <= i < eligible_of(c, project, add, ids).len() ==> eligible(
                c,
                project,
                add,
                #[trigger] eligible_of(c, project, add, ids)[i],
            ) && ids.contains(eligible_of(c, project, add, ids)[i]),
    decreases ids.len(),
{
    if ids.len() > 0 {
        lemma_eligible_of_sound(c, project, add, ids.drop_last());
        let rest = eligible_of(c, project, add, ids.drop_last());
        assert forall|i: int| 0 <= i < eligible_of(c, project, add, ids).len() implies eligible(
            c,
            project,
            add,
            #[trigger] eligible_of(c, project, add, ids)[i],
        ) && ids.contains(eligible_of(c, project, add, ids)[i]) by {
            if i < rest.len() {
                let x = rest[i];
                let k = choose|k: int| 0 <= k < ids.drop_last().len() && ids.drop_last()[k] == x;
                assert(ids[k] == x);
            } else {
                assert(ids[ids.len() - 1] == ids.last());
            }
        }
    }
}

/// Every user whose role is to be changed is eligible and is one of the
/// requested users.
pub proof fn lemma_targets_sound(c: BotCache, project: Seq<char>, add: bool, ids: Seq<u64>)
    ensures
        forall|i: int|
            0 <= i < role_change_targets(c, project, add, ids).len() ==> eligible(
                c,
                project,
                add,
                #[trigger] role_change_targets(c, project, add, ids)[i],
            ) && ids.contains(role_change_targets(c, project, add, ids)[i]),
{
    let d = without_repeats(ids);
    lemma_without_repeats_from_input(ids);
    lemma_eligible_of_sound(c, project, add, d);
    assert forall|i: int| 0 <= i < role_change_targets(c, project, add, ids).len() implies eligible(
        c,
        project,
        add,
        #[trigger] role_change_targets(c, project, add, ids)[i],
    ) && ids.contains(role_change_targets(c, project, add, ids)[i]) by {
        let x = eligible_of(c, project, add, d)[i];
        assert(d.contains(x));
        let k = choose|k: int| 0 <= k < d.len() && d[k] == x;
        assert(ids.contains(d[k]));
    }
}

/// What stays true while a `/member` interaction runs: the users being handled
/// are the eligible requested users, the requester is not among them, and every
/// user reported to the cache was eligible.
pub open spec fn member_inv(c: BotCache, req: MemberRequest, s: MemberStateView) -> bool {
    match s {
        MemberStateView::Changing { project, add, candidates, next, processed, .. } => {
            &&& candidates == role_change_targets(c, project, add, req.target_ids@)
            &&& !req.target_ids@.contains(req.user_id)
            &&& next < candidates.len()
            &&& all_eligible(c, project, add, processed)
        },
        MemberStateView::Reported { command } => notice_is_sound(c, command),
        _ => true,
    }
}

/// Every user of `ids` is eligible.
pub open spec fn all_eligible(c: BotCache, project: Seq<char>, add: bool, ids: Seq<u64>) -> bool {
    forall|i: int| 0 <= i < ids.len() ==> eligible(c, project, add, #[trigger] ids[i])
}

/// A membership change sent to the cache names only eligible users.
pub open spec fn notice_is_sound(c: BotCache, command: CacheCommandView) -> bool {
    match command {
        CacheCommandView::AddProjectMembers { project_name, user_ids } => all_eligible(c, project_name, true, user_ids),
        CacheCommandView::RemoveProjectMembers { project_name, user_ids } => all_eligible(c, project_name, false, user_ids),
        _ => true,
    }
}

/// The view of a `/member` state holds the invariant.
pub open spec fn member_inv_of(c: BotCache, req: MemberRequest, s: MemberState) -> bool {
    member_inv(c, req, s@)
}

/// Only an authorized user gets past the permission check: the interaction
/// reaches the role lookup only from the server lookup, and only when the user
/// is the project's PM, the server's owner, or holds an administrator role.
pub proof fn lemma_member_authority(c: BotCache, req: MemberRequest, s: MemberState, e: MemberEvent)
    ensures
        member_next(c, req, s, e).0 is AwaitingRoles ==> {
            &&& s matches MemberState::AwaitingGuild { project, .. }
            &&& e matches MemberEvent::Guild { owner_id, roles }
            &&& req.member_role_ids matches Some(mr)
            &&& may_manage(c, req, project@, owner_id, mr@, roles@)
        },
        member_next(c, req, s, e).0 is Changing ==> (s is AwaitingRoles || s is Changing),
        member_next(c, req, s, e).1 is ChangeRole ==> (s is AwaitingRoles || s is Changing),
{
}

/// Role changes touch only eligible users other than the requester: for adding,
/// known members not yet in the project; for removing, known members in it.
/// Membership changes sent to the cache name only such users.  The invariant
/// `member_inv` is kept by every step.
pub proof fn lemma_member_changes_are_sound(c: BotCache, req: MemberRequest, s: MemberState, e: MemberEvent)
    requires
        member_inv(c, req, s@),
    ensures
        member_inv(c, req, member_next(c, req, s, e).0),
        member_next(c, req, s, e).1 matches MemberActionView::ChangeRole { add, user_id, .. } ==> {
            &&& user_id != req.user_id
            &&& req.target_ids@.contains(user_id)
            &&& match member_next(c, req, s, e).0 {
                MemberStateView::Changing { project, add: mode, .. } => mode == add && eligible(c, project, add, user_id),
                _ => false,
            }
        },
        member_next(c, req, s, e).1 matches MemberActionView::Notify { command } ==> notice_is_sound(c, command),
{
    match s {
        MemberState::AwaitingRoles { project, add, guild_id } => {
            lemma_targets_sound(c, project@, add, req.target_ids@);
        },
        MemberState::Changing { project, add, guild_id, role_id, candidates, next, processed } => {
            lemma_targets_sound(c, project@, add, req.target_ids@);
            match e {
                MemberEvent::RoleChanged { ok } => {
                    let done = if ok {
                        processed@.push(candidates@[next as int])
                    } else {
                        processed@
                    };
                    assert forall|i: int| 0 <= i < done.len() implies eligible(c, project@, add, #[trigger] done[i]) by {
                        if i < processed@.len() {
                            assert(done[i] == processed@[i]);
                            assert(eligible(c, project@, add, processed@[i]));
                        } else {
                            assert(done[i] == candidates@[next as int]);
                            assert(eligible(c, project@, add, role_change_targets(c, project@, add, req.target_ids@)[next as int]));
                        }
                    }
                },
                _ => {},
            }
        },
        _ => {},
    }
}

/// Role changes start with the first candidate: once the role is found and the
/// request is acceptable, the first `ChangeRole` names the first eligible
/// requested user, with nobody handled yet.
pub proof fn lemma_member_changes_start_at_first(c: BotCache, req: MemberRequest, s: MemberState, e: MemberEvent)
    requires
        s is AwaitingRoles,
        member_next(c, req, s, e).0 is Changing,
    ensures
        match (s, member_next(c, req, s, e)) {
            (
                MemberState::AwaitingRoles { project, add, guild_id },
                (
                    MemberStateView::Changing { candidates, next, processed, role_id, .. },
                    MemberActionView::ChangeRole { add: a, guild_id: g, user_id, role_id: r },
                ),
            ) => {
                &&& candidates == role_change_targets(c, project@, add, req.target_ids@)
                &&& candidates.len() > 0
                &&& next == 0 && processed.len() == 0
                &&& a == add && g == guild_id && r == role_id && user_id == candidates[0]
            },
            _ => false,
        },
{
}

/// Every candidate gets its role change, in order: after a change is done,
/// while candidates remain, the next action changes the role of the very next
/// candidate, with the same project, mode, server and role; the users recorded
/// as done grow by the candidate just handled exactly when its change succeeded.
pub proof fn lemma_member_changes_every_candidate(c: BotCache, req: MemberRequest, s: MemberState, e: MemberEvent)
    requires
        s matches MemberState::Changing { candidates, next, .. } && next + 1 < candidates@.len(),
        e is RoleChanged,
    ensures
        match (s, e, member_next(c, req, s, e)) {
            (
                MemberState::Changing { project, add, guild_id, role_id, candidates, next, processed },
                MemberEvent::RoleChanged { ok },
                (
                    MemberStateView::Changing {
                        project: p2,
                        add: a2,
                        guild_id: g2,
                        role_id: r2,
                        candidates: c2,
                        next: n2,
                        processed: done,
                    },
                    MemberActionView::ChangeRole { add: a, guild_id: g, user_id, role_id: r },
                ),
            ) => {
                &&& p2 == project@ && a2 == add && g2 == guild_id && r2 == role_id && c2 == candidates@
                &&& n2 == next + 1
                &&& a == add && g == guild_id && r == role_id
                &&& user_id == candidates@[next + 1]
                &&& done.len() == processed@.len() + (if ok { 1int } else { 0int })
                &&& done.subrange(0, processed@.len() as int) == processed@
                &&& ok ==> done.last() == candidates@[next as int]
            },
            _ => false,
        },
{
    match (s, e) {
        (MemberState::Changing { processed, candidates, next, .. }, MemberEvent::RoleChanged { ok }) => {
            if ok {
                assert(processed@.push(candidates@[next as int]).subrange(0, processed@.len() as int) =~= processed@);
            } else {
                assert(processed@.subrange(0, processed@.len() as int) =~= processed@);
            }
        },
        _ => {},
    }
}

/// After the last candidate, the answer names exactly the users whose change
/// succeeded: those recorded so far plus the last candidate when its change
/// succeeded. With nobody changed, the answer says nothing changed; otherwise
/// the report and the cache notice name those users, for adding or removing.
pub proof fn lemma_member_report_names_successes(c: BotCache, req: MemberRequest, s: MemberState, e: MemberEvent)
    requires
        s matches MemberState::Changing { candidates, next, .. } && next + 1 == candidates@.len(),
        e is RoleChanged,
    ensures
        match (s, e, member_next(c, req, s, e)) {
            (
                MemberState::Changing { project, add, candidates, next, processed, .. },
                MemberEvent::RoleChanged { ok },
                (s2, a2),
            ) => {
                let done = if ok {
                    processed@ + seq![candidates@[next as int]]
                } else {
                    processed@
                };
                if done.len() == 0 {
                    s2 is Closing && a2 == MemberActionView::Reply { text: msg_nothing_changed() }
                } else if add {
                    &&& s2 == MemberStateView::Reported {
                        command: CacheCommandView::AddProjectMembers { project_name: project@, user_ids: done },
                    }
                    &&& a2 == MemberActionView::Reply { text: msg_added(project@, done) }
                } else {
                    &&& s2 == MemberStateView::Reported {
                        command: CacheCommandView::RemoveProjectMembers { project_name: project@, user_ids: done },
                    }
                    &&& a2 == MemberActionView::Reply { text: msg_removed(project@, done) }
                }
            },
            _ => false,
        },
{
    match (s, e) {
        (MemberState::Changing { processed, candidates, next, .. }, MemberEvent::RoleChanged { ok }) => {
            assert(processed@.push(candidates@[next as int]) =~= processed@ + seq![candidates@[next as int]]);
        },
        _ => {},
    }
}

// ---------------------------------------------------------------------------
// Registration
// ---------------------------------------------------------------------------

/// The definition of `/member`.
pub fn register_member_command() -> (r: CommandSpec)
    ensures
        r@ == member_command_spec(),
{
    let mut add_args: Vec<ArgumentSpec> = Vec::new();
    add_args.push(make_argument(OptionKind::User, "user1", "추가할 첫 번째 유저", true));
    add_args.push(make_argument(OptionKind::User, "user2", "추가할 두 번째 유저 (선택)", false));
    add_args.push(make_argument(OptionKind::User, "user3", "추가할 세 번째 유저 (선택)", false));
    let mut remove_args: Vec<ArgumentSpec> = Vec::new();
    remove_args.push(make_argument(OptionKind::User, "user1", "내보낼 첫 번째 유저", true));
    remove_args.push(make_argument(OptionKind::User, "user2", "내보낼 두 번째 유저 (선택)", false));
    remove_args.push(make_argument(OptionKind::User, "user3", "내보낼 세 번째 유저 (선택)", false));
    let list = make_subcommand("list", "현재 프로젝트에 참여 중인 인원 목록을 확인합니다.", Vec::new());
    let add = make_subcommand("add", "프로젝트에 새 멤버를 추가하고 역할을 부여합니다.", add_args);
    let remove = make_subcommand("remove", "프로젝트에서 멤버를 내보내고 역할을 회수합니다.", remove_args);
    let mut options: Vec<OptionSpec> = Vec::new();
    options.push(list);
    options.push(add);
    options.push(remove);
    let r = CommandSpec {
        name: "member".to_owned(),
        description: "프로젝트 멤버를 관리하는 명령어입니다.".to_owned(),
        dm_permission: false,
        default_member_permissions: None,
        options,
    };
    assert(r@.options[0].arguments =~= Seq::<ArgumentSpecView>::empty());
    assert(r@.options[1].arguments =~= member_command_spec().options[1].arguments);
    assert(r@.options[2].arguments =~= member_command_spec().options[2].arguments);
    assert(r@.options =~= member_command_spec().options);
    r
}

} // verus!
