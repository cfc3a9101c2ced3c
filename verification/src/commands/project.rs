use vstd::prelude::*;
use vstd::string::*;
use crate::cache::{display_name, opt_view, shown_name, BotCache, CacheCommand, CacheCommandView};
use crate::category::{
    category_title, category_title_of, lemma_title_round_trip, pm_marker, project_key_of_category, project_key_of_title, project_of_category,
    project_of_title,
};
use crate::commands::layout::{
    category_plan, make_category_plan, make_text_channel_plan, make_voice_channel_plan, text_channel_plan,
    voice_channel_plan, ChannelPlan, ChannelPlanView,
};
use crate::permissions::{
    check_admin, find_project_role, is_admin, lemma_project_role_is_first_match, project_role_ignoring_case, RoleRecord,
};
use crate::text::lowercase;
use crate::text::{contains_seq, mention, mention_of, str_equal, trimmed};

use crate::commands::layout::PermissionSet;
use crate::commands::registry::{make_argument, make_subcommand, project_command_spec, ArgumentSpec, ArgumentSpecView, CommandSpec, OptionKind, OptionSpec};
verus! {

broadcast use vstd::string::group_string_axioms;

// ---------------------------------------------------------------------------
// Texts of the project command
// ---------------------------------------------------------------------------

pub open spec fn msg_guild_only() -> Seq<char> {
    "❌ 이 명령어는 서버 안에서만 사용 가능합니다."@
}

pub open spec fn msg_choose_subcommand() -> Seq<char> {
    "❌ 올바른 하위 명령어를 선택해주세요."@
}

pub open spec fn msg_name_missing() -> Seq<char> {
    "⚠️ 생성할 프로젝트 이름을 제대로 입력해주세요."@
}

pub open spec fn msg_new_name_missing() -> Seq<char> {
    "⚠️ 변경할 새 이름을 입력해주세요."@
}

pub open spec fn msg_outside_category() -> Seq<char> {
    "❌ 이 명령어는 프로젝트 카테고리 내부 채널에서 실행해야 합니다."@
}

pub open spec fn msg_admin_only() -> Seq<char> {
    "❌ 이 명령어는 서버 관리자(ADMINISTRATOR) 권한이 필요합니다."@
}

pub open spec fn msg_delete_outside_category() -> Seq<char> {
    "❌ 삭제할 프로젝트 카테고리 내부의 채널에서 명령어를 입력해주세요."@
}

pub open spec fn msg_not_a_project() -> Seq<char> {
    "❌ 프로젝트 카테고리 내부 채널에서 명령어를 입력해주세요."@
}

pub open spec fn msg_deleting() -> Seq<char> {
    "🧹 프로젝트 채널들과 역할을 완전히 삭제합니다..."@
}

/// The answer when a project of that name already exists.
pub open spec fn msg_exists(name: Seq<char>) -> Seq<char> {
    "❌ 이미 '"@ + name + "' 이름의 프로젝트가 존재합니다."@
}

/// The answer while a project is being set up.
pub open spec fn msg_generating(name: Seq<char>) -> Seq<char> {
    "🏗️ '"@ + name + "' 프로젝트 생성을 시작합니다. 세팅 중..."@
}

/// The answer when the bot's own user could not be read.
pub open spec fn msg_bot_unknown(error: Seq<char>) -> Seq<char> {
    "❌ 봇 정보를 가져오지 못했습니다: "@ + error
}

/// The answer when the project's role could not be created.
pub open spec fn msg_role_failed(error: Seq<char>) -> Seq<char> {
    "❌ 역할 생성 실패: "@ + error
}

/// The answer when the project's category could not be created.
pub open spec fn msg_category_failed(error: Seq<char>) -> Seq<char> {
    "❌ 카테고리 생성 실패: "@ + error
}

/// The answer once the project's channels are set up.
pub open spec fn msg_generated(user_id: u64) -> Seq<char> {
    "🚀 "@ + mention_of(user_id) + " 님, 프로젝트 서버 세팅이 완료되었습니다!"@
}

/// The answer when the category could not be renamed.
pub open spec fn msg_rename_failed(error: Seq<char>) -> Seq<char> {
    "❌ 이름 변경 실패: "@ + error
}

/// The answer when both the category and the role were renamed.
pub open spec fn msg_renamed(name: Seq<char>) -> Seq<char> {
    "📝 프로젝트 카테고리와 역할 이름이 모두 '"@ + name + "'으로 변경되었습니다."@
}

/// The answer when the category was renamed but no role was.
pub open spec fn msg_renamed_without_role(name: Seq<char>) -> Seq<char> {
    "📝 프로젝트 이름은 '"@ + name + "'으로 변경되었으나, 동명의 기존 역할을 찾지 못했습니다."@
}

/// The name shown for a PM who is not a known member.
pub open spec fn unknown_pm() -> Seq<char> {
    "Unknown PM"@
}

fn quoted(before: &str, name: &str, after: &str) -> (r: String)
    ensures
        r@ == before@ + name@ + after@,
{
    let mut r = before.to_owned();
    r.append(name);
    r.append(after);
    r
}

fn prefixed(before: &str, rest: &str) -> (r: String)
    ensures
        r@ == before@ + rest@,
{
    let mut r = before.to_owned();
    r.append(rest);
    r
}

// ---------------------------------------------------------------------------
// Requests, actions, events
// ---------------------------------------------------------------------------

/// What the bot knows of a `/project` interaction when it starts.
pub struct ProjectRequest {
    /// The user who ran the command.
    pub user_id: u64,
    /// The user's account name.
    pub user_name: String,
    /// The user's global display name, if set.
    pub user_global_name: Option<String>,
    /// The user's server nickname, if the interaction has a member with one.
    pub member_nick: Option<String>,
    /// The role ids of the user as a server member, if the interaction has a member.
    pub member_role_ids: Option<Vec<u64>>,
    /// The channel the command was run in.
    pub channel_id: u64,
    /// The server, if the command was run in one.
    pub guild_id: Option<u64>,
    /// The name of the chosen subcommand, if any.
    pub subcommand: Option<String>,
    /// The string given for the subcommand's name option (`name` or `new_name`);
    /// empty when it is missing.
    pub name_arg: String,
}

/// A channel of the server: its id and its category.
pub struct ChannelRecord {
    pub id: u64,
    pub parent_id: Option<u64>,
}

/// What the caller is to do next for a `/project` interaction.
pub enum ProjectAction {
    Defer,
    Reply { text: String },
    Notify { command: CacheCommand },
    /// Read the bot's own user id.
    FetchCurrentUser,
    /// Create a role with this name.
    CreateRole { guild_id: u64, name: String },
    /// Give a role to a user; the result is not used.
    GrantRole { guild_id: u64, user_id: u64, role_id: u64 },
    /// Create a channel (the category's result is used, the others' are not).
    CreateChannel { guild_id: u64, plan: ChannelPlan },
    /// Wait this many milliseconds.
    Sleep { millis: u64 },
    FetchChannel { channel_id: u64 },
    /// Look up the category channel: its name when it is a server channel.
    FetchCategory { category_id: u64 },
    RenameChannel { channel_id: u64, name: String },
    FetchRoles { guild_id: u64 },
    RenameRole { guild_id: u64, role_id: u64, name: String },
    FetchGuild { guild_id: u64 },
    ListChannels { guild_id: u64 },
    /// Delete a channel; the result is not used.
    DeleteChannel { channel_id: u64 },
    /// Delete a role; the result is not used.
    DeleteRole { guild_id: u64, role_id: u64 },
    Finish,
}

/// The mathematical value of a `ProjectAction`.
pub enum ProjectActionView {
    Defer,
    Reply { text: Seq<char> },
    Notify { command: CacheCommandView },
    FetchCurrentUser,
    CreateRole { guild_id: u64, name: Seq<char> },
    GrantRole { guild_id: u64, user_id: u64, role_id: u64 },
    CreateChannel { guild_id: u64, plan: ChannelPlanView },
    Sleep { millis: u64 },
    FetchChannel { channel_id: u64 },
    FetchCategory { category_id: u64 },
    RenameChannel { channel_id: u64, name: Seq<char> },
    FetchRoles { guild_id: u64 },
    RenameRole { guild_id: u64, role_id: u64, name: Seq<char> },
    FetchGuild { guild_id: u64 },
    ListChannels { guild_id: u64 },
    DeleteChannel { channel_id: u64 },
    DeleteRole { guild_id: u64, role_id: u64 },
    Finish,
}

impl View for ProjectAction {
    type V = ProjectActionView;

    open spec fn view(&self) -> ProjectActionView {
        match self {
            ProjectAction::Defer => ProjectActionView::Defer,
            ProjectAction::Reply { text } => ProjectActionView::Reply { text: text@ },
            ProjectAction::Notify { command } => ProjectActionView::Notify { command: command@ },
            ProjectAction::FetchCurrentUser => ProjectActionView::FetchCurrentUser,
            ProjectAction::CreateRole { guild_id, name } => ProjectActionView::CreateRole { guild_id: *guild_id, name: name@ },
            ProjectAction::GrantRole { guild_id, user_id, role_id } => ProjectActionView::GrantRole {
                guild_id: *guild_id,
                user_id: *user_id,
                role_id: *role_id,
            },
            ProjectAction::CreateChannel { guild_id, plan } => ProjectActionView::CreateChannel { guild_id: *guild_id, plan: plan@ },
            ProjectAction::Sleep { millis } => ProjectActionView::Sleep { millis: *millis },
            ProjectAction::FetchChannel { channel_id } => ProjectActionView::FetchChannel { channel_id: *channel_id },
            ProjectAction::FetchCategory { category_id } => ProjectActionView::FetchCategory { category_id: *category_id },
            ProjectAction::RenameChannel { channel_id, name } => ProjectActionView::RenameChannel {
                channel_id: *channel_id,
                name: name@,
            },
            ProjectAction::FetchRoles { guild_id } => ProjectActionView::FetchRoles { guild_id: *guild_id },
            ProjectAction::RenameRole { guild_id, role_id, name } => ProjectActionView::RenameRole {
                guild_id: *guild_id,
                role_id: *role_id,
                name: name@,
            },
            ProjectAction::FetchGuild { guild_id } => ProjectActionView::FetchGuild { guild_id: *guild_id },
            ProjectAction::ListChannels { guild_id } => ProjectActionView::ListChannels { guild_id: *guild_id },
            ProjectAction::DeleteChannel { channel_id } => ProjectActionView::DeleteChannel { channel_id: *channel_id },
            ProjectAction::DeleteRole { guild_id, role_id } => ProjectActionView::DeleteRole {
                guild_id: *guild_id,
                role_id: *role_id,
            },
            ProjectAction::Finish => ProjectActionView::Finish,
        }
    }
}

/// What the caller reports back after doing an action.
pub enum ProjectEvent {
    /// The action was done; anything it gave back is not used.
    Acknowledged,
    /// The bot's own user id, or the error text.
    CurrentUser { result: Result<u64, String> },
    /// The new role's id, or the error text.
    RoleCreated { result: Result<u64, String> },
    /// The new category's id, or the error text.
    CategoryCreated { result: Result<u64, String> },
    /// The channel: whether it is a server channel, and its category.
    Channel { in_guild: bool, parent_id: Option<u64> },
    /// The category's name, or `None` when it is not a server channel or could not be read.
    Category { title: Option<String> },
    /// `None` when the category was renamed, else the error text.
    ChannelRenamed { error: Option<String> },
    /// The server's roles, or `None` when they could not be listed.
    Roles { listed: Option<Vec<RoleRecord>> },
    /// Whether the role was renamed.
    RoleRenamed { ok: bool },
    /// The server's owner and roles.
    Guild { owner_id: u64, roles: Vec<RoleRecord> },
    /// The server's channels, or `None` when they could not be listed.
    Channels { channels: Option<Vec<ChannelRecord>> },
}

/// Where a `/project` interaction stands.
pub enum ProjectState {
    Starting,
    GenAnnounced { name: String, guild_id: u64 },
    GenAwaitingBot { name: String, guild_id: u64 },
    GenAwaitingRole { name: String, guild_id: u64, bot_id: u64 },
    GenAwaitingGrant { name: String, guild_id: u64, bot_id: u64, role_id: u64 },
    GenNotifiedPm { guild_id: u64, bot_id: u64, role_id: u64, title: String },
    GenAwaitingCategory { guild_id: u64, bot_id: u64, role_id: u64 },
    GenCreatingText { guild_id: u64, bot_id: u64, role_id: u64, category_id: u64, index: usize },
    GenPausing { guild_id: u64, bot_id: u64, role_id: u64, category_id: u64, index: usize },
    GenCreatingVoice,
    Refreshing,
    RenAwaitingChannel { new_name: String, guild_id: u64 },
    RenAwaitingCategory { new_name: String, guild_id: u64, category_id: u64 },
    RenAwaitingEdit { new_name: String, old_name: String, guild_id: u64 },
    RenAwaitingRoles { new_name: String, old_name: String, guild_id: u64 },
    RenAwaitingRoleEdit { new_name: String },
    DelAwaitingGuild { guild_id: u64 },
    DelAwaitingChannel { guild_id: u64 },
    DelAwaitingCategory { guild_id: u64, category_id: u64 },
    DelAnnounced { guild_id: u64, category_id: u64, title: String },
    DelAwaitingChannels { guild_id: u64, category_id: u64, title: String },
    DelSweeping { guild_id: u64, category_id: u64, title: String, queue: Vec<u64>, index: usize, pausing: bool },
    DelAwaitingCategoryDelete { guild_id: u64, title: String },
    DelAwaitingRoles { guild_id: u64, title: String },
    DelAwaitingRoleDelete,
    DelSettling,
    Closing,
    Finished,
}

/// The mathematical value of a `ProjectState`.
pub enum ProjectStateView {
    Starting,
    GenAnnounced { name: Seq<char>, guild_id: u64 },
    GenAwaitingBot { name: Seq<char>, guild_id: u64 },
    GenAwaitingRole { name: Seq<char>, guild_id: u64, bot_id: u64 },
    GenAwaitingGrant { name: Seq<char>, guild_id: u64, bot_id: u64, role_id: u64 },
    GenNotifiedPm { guild_id: u64, bot_id: u64, role_id: u64, title: Seq<char> },
    GenAwaitingCategory { guild_id: u64, bot_id: u64, role_id: u64 },
    GenCreatingText { guild_id: u64, bot_id: u64, role_id: u64, category_id: u64, index: nat },
    GenPausing { guild_id: u64, bot_id: u64, role_id: u64, category_id: u64, index: nat },
    GenCreatingVoice,
    Refreshing,
    RenAwaitingChannel { new_name: Seq<char>, guild_id: u64 },
    RenAwaitingCategory { new_name: Seq<char>, guild_id: u64, category_id: u64 },
    RenAwaitingEdit { new_name: Seq<char>, old_name: Seq<char>, guild_id: u64 },
    RenAwaitingRoles { new_name: Seq<char>, old_name: Seq<char>, guild_id: u64 },
    RenAwaitingRoleEdit { new_name: Seq<char> },
    DelAwaitingGuild { guild_id: u64 },
    DelAwaitingChannel { guild_id: u64 },
    DelAwaitingCategory { guild_id: u64, category_id: u64 },
    DelAnnounced { guild_id: u64, category_id: u64, title: Seq<char> },
    DelAwaitingChannels { guild_id: u64, category_id: u64, title: Seq<char> },
    DelSweeping { guild_id: u64, category_id: u64, title: Seq<char>, queue: Seq<u64>, index: nat, pausing: bool },
    DelAwaitingCategoryDelete { guild_id: u64, title: Seq<char> },
    DelAwaitingRoles { guild_id: u64, title: Seq<char> },
    DelAwaitingRoleDelete,
    DelSettling,
    Closing,
    Finished,
}

impl View for ProjectState {
    type V = ProjectStateView;

    open spec fn view(&self) -> ProjectStateView {
        match self {
            ProjectState::Starting => ProjectStateView::Starting,
            ProjectState::GenAnnounced { name, guild_id } => ProjectStateView::GenAnnounced { name: name@, guild_id: *guild_id },
            ProjectState::GenAwaitingBot { name, guild_id } => ProjectStateView::GenAwaitingBot { name: name@, guild_id: *guild_id },
            ProjectState::GenAwaitingRole { name, guild_id, bot_id } => ProjectStateView::GenAwaitingRole { name: name@, guild_id: *guild_id, bot_id: *bot_id },
            ProjectState::GenAwaitingGrant { name, guild_id, bot_id, role_id } => ProjectStateView::GenAwaitingGrant { name: name@, guild_id: *guild_id, bot_id: *bot_id, role_id: *role_id },
            ProjectState::GenNotifiedPm { guild_id, bot_id, role_id, title } => ProjectStateView::GenNotifiedPm { guild_id: *guild_id, bot_id: *bot_id, role_id: *role_id, title: title@ },
            ProjectState::GenAwaitingCategory { guild_id, bot_id, role_id } => ProjectStateView::GenAwaitingCategory { guild_id: *guild_id, bot_id: *bot_id, role_id: *role_id },
            ProjectState::GenCreatingText { guild_id, bot_id, role_id, category_id, index } => ProjectStateView::GenCreatingText { guild_id: *guild_id, bot_id: *bot_id, role_id: *role_id, category_id: *category_id, index: *index as nat },
            ProjectState::GenPausing { guild_id, bot_id, role_id, category_id, index } => ProjectStateView::GenPausing { guild_id: *guild_id, bot_id: *bot_id, role_id: *role_id, category_id: *category_id, index: *index as nat },
            ProjectState::GenCreatingVoice => ProjectStateView::GenCreatingVoice,
            ProjectState::Refreshing => ProjectStateView::Refreshing,
            ProjectState::RenAwaitingChannel { new_name, guild_id } => ProjectStateView::RenAwaitingChannel { new_name: new_name@, guild_id: *guild_id },
            ProjectState::RenAwaitingCategory { new_name, guild_id, category_id } => ProjectStateView::RenAwaitingCategory { new_name: new_name@, guild_id: *guild_id, category_id: *category_id },
            ProjectState::RenAwaitingEdit { new_name, old_name, guild_id } => ProjectStateView::RenAwaitingEdit { new_name: new_name@, old_name: old_name@, guild_id: *guild_id },
            ProjectState::RenAwaitingRoles { new_name, old_name, guild_id } => ProjectStateView::RenAwaitingRoles { new_name: new_name@, old_name: old_name@, guild_id: *guild_id },
            ProjectState::RenAwaitingRoleEdit { new_name } => ProjectStateView::RenAwaitingRoleEdit { new_name: new_name@ },
            ProjectState::DelAwaitingGuild { guild_id } => ProjectStateView::DelAwaitingGuild { guild_id: *guild_id },
            ProjectState::DelAwaitingChannel { guild_id } => ProjectStateView::DelAwaitingChannel { guild_id: *guild_id },
            ProjectState::DelAwaitingCategory { guild_id, category_id } => ProjectStateView::DelAwaitingCategory { guild_id: *guild_id, category_id: *category_id },
            ProjectState::DelAnnounced { guild_id, category_id, title } => ProjectStateView::DelAnnounced { guild_id: *guild_id, category_id: *category_id, title: title@ },
            ProjectState::DelAwaitingChannels { guild_id, category_id, title } => ProjectStateView::DelAwaitingChannels { guild_id: *guild_id, category_id: *category_id, title: title@ },
            ProjectState::DelSweeping { guild_id, category_id, title, queue, index, pausing } => ProjectStateView::DelSweeping { guild_id: *guild_id, category_id: *category_id, title: title@, queue: queue@, index: *index as nat, pausing: *pausing },
            ProjectState::DelAwaitingCategoryDelete { guild_id, title } => ProjectStateView::DelAwaitingCategoryDelete { guild_id: *guild_id, title: title@ },
            ProjectState::DelAwaitingRoles { guild_id, title } => ProjectStateView::DelAwaitingRoles { guild_id: *guild_id, title: title@ },
            ProjectState::DelAwaitingRoleDelete => ProjectStateView::DelAwaitingRoleDelete,
            ProjectState::DelSettling => ProjectStateView::DelSettling,
            ProjectState::Closing => ProjectStateView::Closing,
            ProjectState::Finished => ProjectStateView::Finished,
        }
    }
}

// ---------------------------------------------------------------------------
// How a `/project` interaction moves on
// ---------------------------------------------------------------------------

/// The subcommand of a `/project` request.
pub enum ProjectSubcommand {
    Missing,
    Generate,
    Rename,
    Delete,
    Other,
}

/// Which subcommand the request names.
pub open spec fn project_subcommand(req: ProjectRequest) -> ProjectSubcommand {
    match req.subcommand {
        None => ProjectSubcommand::Missing,
        Some(name) => if name@ == "generate"@ {
            ProjectSubcommand::Generate
        } else if name@ == "rename"@ {
            ProjectSubcommand::Rename
        } else if name@ == "delete"@ {
            ProjectSubcommand::Delete
        } else {
            ProjectSubcommand::Other
        },
    }
}

/// Answer with `text` and end (after the answer is acknowledged).
pub open spec fn answer(text: Seq<char>) -> (ProjectStateView, ProjectActionView) {
    (ProjectStateView::Closing, ProjectActionView::Reply { text })
}

/// End now.
pub open spec fn stop() -> (ProjectStateView, ProjectActionView) {
    (ProjectStateView::Finished, ProjectActionView::Finish)
}

/// The first step after the answer was deferred.
pub open spec fn project_begin(c: BotCache, req: ProjectRequest) -> (ProjectStateView, ProjectActionView) {
    match req.guild_id {
        None => answer(msg_guild_only()),
        Some(g) => match project_subcommand(req) {
            ProjectSubcommand::Missing => answer(msg_choose_subcommand()),
            ProjectSubcommand::Generate => if req.name_arg@.len() == 0 {
                answer(msg_name_missing())
            } else if c.project_names().contains(req.name_arg@) {
                answer(msg_exists(req.name_arg@))
            } else {
                (
                    ProjectStateView::GenAnnounced { name: req.name_arg@, guild_id: g },
                    ProjectActionView::Reply { text: msg_generating(req.name_arg@) },
                )
            },
            ProjectSubcommand::Rename => if req.name_arg@.len() == 0 {
                answer(msg_new_name_missing())
            } else {
                (
                    ProjectStateView::RenAwaitingChannel { new_name: req.name_arg@, guild_id: g },
                    ProjectActionView::FetchChannel { channel_id: req.channel_id },
                )
            },
            ProjectSubcommand::Delete => (
                ProjectStateView::DelAwaitingGuild { guild_id: g },
                ProjectActionView::FetchGuild { guild_id: g },
            ),
            ProjectSubcommand::Other => stop(),
        },
    }
}

/// The name shown for the PM in a new category's title: the cached name, else
/// the name Discord shows for the user.
pub open spec fn creator_name(c: BotCache, req: ProjectRequest) -> Seq<char> {
    match c.member_name(req.user_id) {
        Some(n) => n,
        None => shown_name(opt_view(req.member_nick), opt_view(req.user_global_name), req.user_name@),
    }
}

/// The name shown for a project's PM in a renamed category's title.
pub open spec fn recorded_pm_name(c: BotCache, project: Seq<char>) -> Seq<char> {
    match c.pm_of(project) {
        Some(pm) => match c.member_name(pm) {
            Some(n) => n,
            None => unknown_pm(),
        },
        None => unknown_pm(),
    }
}

/// The channels to delete before the category: those in the category other
/// than the one the command was run in, in the order listed.
pub open spec fn sweep_victims(channels: Seq<ChannelRecord>, category_id: u64, current: u64) -> Seq<u64>
    decreases channels.len(),
{
    if channels.len() == 0 {
        Seq::empty()
    } else {
        let rest = sweep_victims(channels.drop_last(), category_id, current);
        if channels.last().parent_id == Some(category_id) && channels.last().id != current {
            rest.push(channels.last().id)
        } else {
            rest
        }
    }
}

/// The steps of `/project generate`.
pub open spec fn generate_next(c: BotCache, req: ProjectRequest, s: ProjectState, e: ProjectEvent) -> (ProjectStateView, ProjectActionView) {
    match s {
        ProjectState::GenAnnounced { name, guild_id } => match e {
            ProjectEvent::Acknowledged => (
                ProjectStateView::GenAwaitingBot { name: name@, guild_id },
                ProjectActionView::FetchCurrentUser,
            ),
            _ => stop(),
        },
        ProjectState::GenAwaitingBot { name, guild_id } => match e {
            ProjectEvent::CurrentUser { result } => match result {
                Err(err) => answer(msg_bot_unknown(err@)),
                Ok(bot_id) => (
                    ProjectStateView::GenAwaitingRole { name: name@, guild_id, bot_id },
                    ProjectActionView::CreateRole { guild_id, name: name@ },
                ),
            },
            _ => stop(),
        },
        ProjectState::GenAwaitingRole { name, guild_id, bot_id } => match e {
            ProjectEvent::RoleCreated { result } => match result {
                Err(err) => answer(msg_role_failed(err@)),
                Ok(role_id) => (
                    ProjectStateView::GenAwaitingGrant { name: name@, guild_id, bot_id, role_id },
                    ProjectActionView::GrantRole { guild_id, user_id: req.user_id, role_id },
                ),
            },
            _ => stop(),
        },
        ProjectState::GenAwaitingGrant { name, guild_id, bot_id, role_id } => match e {
            ProjectEvent::Acknowledged => {
                let title = category_title_of(name@, creator_name(c, req));
                match c.member_name(req.user_id) {
                    Some(_) => (
                        ProjectStateView::GenAwaitingCategory { guild_id, bot_id, role_id },
                        ProjectActionView::CreateChannel { guild_id, plan: category_plan(guild_id, role_id, bot_id, title) },
                    ),
                    None => (
                        ProjectStateView::GenNotifiedPm { guild_id, bot_id, role_id, title },
                        ProjectActionView::Notify {
                            command: CacheCommandView::UpdateSingleMember {
                                user_id: req.user_id,
                                display_name: req.user_name@,
                            },
                        },
                    ),
                }
            },
            _ => stop(),
        },
        ProjectState::GenNotifiedPm { guild_id, bot_id, role_id, title } => match e {
            ProjectEvent::Acknowledged => (
                ProjectStateView::GenAwaitingCategory { guild_id, bot_id, role_id },
                ProjectActionView::CreateChannel { guild_id, plan: category_plan(guild_id, role_id, bot_id, title@) },
            ),
            _ => stop(),
        },
        ProjectState::GenAwaitingCategory { guild_id, bot_id, role_id } => match e {
            ProjectEvent::CategoryCreated { result } => match result {
                Err(err) => (ProjectStateView::Refreshing, ProjectActionView::Reply { text: msg_category_failed(err@) }),
                Ok(category_id) => (
                    ProjectStateView::GenCreatingText { guild_id, bot_id, role_id, category_id, index: 0 },
                    ProjectActionView::CreateChannel {
                        guild_id,
                        plan: text_channel_plan(0, guild_id, role_id, bot_id, req.user_id, category_id),
                    },
                ),
            },
            _ => stop(),
        },
        ProjectState::GenCreatingText { guild_id, bot_id, role_id, category_id, index } => match e {
            ProjectEvent::Acknowledged => (
                ProjectStateView::GenPausing { guild_id, bot_id, role_id, category_id, index: index as nat },
                ProjectActionView::Sleep { millis: 100 },
            ),
            _ => stop(),
        },
        ProjectState::GenPausing { guild_id, bot_id, role_id, category_id, index } => match e {
            ProjectEvent::Acknowledged => if index + 1 < 8 {
                (
                    ProjectStateView::GenCreatingText { guild_id, bot_id, role_id, category_id, index: (index + 1) as nat },
                    ProjectActionView::CreateChannel {
                        guild_id,
                        plan: text_channel_plan((index + 1) as nat, guild_id, role_id, bot_id, req.user_id, category_id),
                    },
                )
            } else {
                (
                    ProjectStateView::GenCreatingVoice,
                    ProjectActionView::CreateChannel { guild_id, plan: voice_channel_plan(category_id) },
                )
            },
            _ => stop(),
        },
        ProjectState::GenCreatingVoice => match e {
            ProjectEvent::Acknowledged => (ProjectStateView::Refreshing, ProjectActionView::Reply { text: msg_generated(req.user_id) }),
            _ => stop(),
        },
        _ => stop(),
    }
}

/// The steps of `/project rename`.
pub open spec fn rename_next(c: BotCache, req: ProjectRequest, s: ProjectState, e: ProjectEvent) -> (ProjectStateView, ProjectActionView) {
    match s {
        ProjectState::RenAwaitingChannel { new_name, guild_id } => match e {
            ProjectEvent::Channel { in_guild, parent_id } => if !in_guild {
                stop()
            } else {
                match parent_id {
                    None => answer(msg_outside_category()),
                    Some(cat) => if c.project_names().contains(new_name@) {
                        answer(msg_exists(new_name@))
                    } else {
                        (
                            ProjectStateView::RenAwaitingCategory { new_name: new_name@, guild_id, category_id: cat },
                            ProjectActionView::FetchCategory { category_id: cat },
                        )
                    },
                }
            },
            _ => stop(),
        },
        ProjectState::RenAwaitingCategory { new_name, guild_id, category_id } => match e {
            ProjectEvent::Category { title } => {
                let old = match title {
                    Some(t) => project_of_title(t@),
                    None => Seq::empty(),
                };
                (
                    ProjectStateView::RenAwaitingEdit { new_name: new_name@, old_name: old, guild_id },
                    ProjectActionView::RenameChannel {
                        channel_id: category_id,
                        name: category_title_of(new_name@, recorded_pm_name(c, old)),
                    },
                )
            },
            _ => stop(),
        },
        ProjectState::RenAwaitingEdit { new_name, old_name, guild_id } => match e {
            ProjectEvent::ChannelRenamed { error } => match error {
                Some(err) => answer(msg_rename_failed(err@)),
                None => (
                    ProjectStateView::RenAwaitingRoles { new_name: new_name@, old_name: old_name@, guild_id },
                    ProjectActionView::FetchRoles { guild_id },
                ),
            },
            _ => stop(),
        },
        ProjectState::RenAwaitingRoles { new_name, old_name, guild_id } => match e {
            ProjectEvent::Roles { listed } => {
                let role = match listed {
                    Some(rs) => project_role_ignoring_case(rs@, old_name@),
                    None => None,
                };
                match role {
                    Some(role_id) => (
                        ProjectStateView::RenAwaitingRoleEdit { new_name: new_name@ },
                        ProjectActionView::RenameRole { guild_id, role_id, name: new_name@ },
                    ),
                    None => (
                        ProjectStateView::Refreshing,
                        ProjectActionView::Reply { text: msg_renamed_without_role(new_name@) },
                    ),
                }
            },
            _ => stop(),
        },
        ProjectState::RenAwaitingRoleEdit { new_name } => match e {
            ProjectEvent::RoleRenamed { ok } => (
                ProjectStateView::Refreshing,
                ProjectActionView::Reply {
                    text: if ok {
                        msg_renamed(new_name@)
                    } else {
                        msg_renamed_without_role(new_name@)
                    },
                },
            ),
            _ => stop(),
        },
        _ => stop(),
    }
}

/// The step that moves on from the channel queue (or skips it): delete the next
/// queued channel, or the category itself once the queue is done.
pub open spec fn sweep_from(guild_id: u64, category_id: u64, title: Seq<char>, queue: Seq<u64>, index: nat) -> (ProjectStateView, ProjectActionView) {
    if index < queue.len() {
        (
            ProjectStateView::DelSweeping { guild_id, category_id, title, queue, index, pausing: false },
            ProjectActionView::DeleteChannel { channel_id: queue[index as int] },
        )
    } else {
        (
            ProjectStateView::DelAwaitingCategoryDelete { guild_id, title },
            ProjectActionView::DeleteChannel { channel_id: category_id },
        )
    }
}

/// The steps of `/project delete`.
pub open spec fn delete_next(c: BotCache, req: ProjectRequest, s: ProjectState, e: ProjectEvent) -> (ProjectStateView, ProjectActionView) {
    match s {
        ProjectState::DelAwaitingGuild { guild_id } => match e {
            ProjectEvent::Guild { owner_id, roles } => match req.member_role_ids {
                None => stop(),
                Some(mr) => if is_admin(owner_id, req.user_id, mr@, roles@) {
                    (
                        ProjectStateView::DelAwaitingChannel { guild_id },
                        ProjectActionView::FetchChannel { channel_id: req.channel_id },
                    )
                } else {
                    answer(msg_admin_only())
                },
            },
            _ => stop(),
        },
        ProjectState::DelAwaitingChannel { guild_id } => match e {
            ProjectEvent::Channel { in_guild, parent_id } => if !in_guild {
                stop()
            } else {
                match parent_id {
                    None => answer(msg_delete_outside_category()),
                    Some(cat) => (
                        ProjectStateView::DelAwaitingCategory { guild_id, category_id: cat },
                        ProjectActionView::FetchCategory { category_id: cat },
                    ),
                }
            },
            _ => stop(),
        },
        ProjectState::DelAwaitingCategory { guild_id, category_id } => match e {
            ProjectEvent::Category { title } => match title {
                Some(t) => if !c.project_names().contains(project_key_of_title(t@)) {
                    answer(msg_not_a_project())
                } else {
                    (
                        ProjectStateView::DelAnnounced { guild_id, category_id, title: t@ },
                        ProjectActionView::Reply { text: msg_deleting() },
                    )
                },
                None => (
                    ProjectStateView::DelAnnounced { guild_id, category_id, title: Seq::empty() },
                    ProjectActionView::Reply { text: msg_deleting() },
                ),
            },
            _ => stop(),
        },
        ProjectState::DelAnnounced { guild_id, category_id, title } => match e {
            ProjectEvent::Acknowledged => (
                ProjectStateView::DelAwaitingChannels { guild_id, category_id, title: title@ },
                ProjectActionView::ListChannels { guild_id },
            ),
            _ => stop(),
        },
        ProjectState::DelAwaitingChannels { guild_id, category_id, title } => match e {
            ProjectEvent::Channels { channels } => match channels {
                None => sweep_from(guild_id, category_id, title@, Seq::empty(), 0),
                Some(list) => sweep_from(
                    guild_id,
                    category_id,
                    title@,
                    sweep_victims(list@, category_id, req.channel_id).push(req.channel_id),
                    0,
                ),
            },
            _ => stop(),
        },
        ProjectState::DelSweeping { guild_id, category_id, title, queue, index, pausing } => match e {
            ProjectEvent::Acknowledged => if !pausing {
                (
                    ProjectStateView::DelSweeping { guild_id, category_id, title: title@, queue: queue@, index: index as nat, pausing: true },
                    ProjectActionView::Sleep { millis: 100 },
                )
            } else {
                sweep_from(guild_id, category_id, title@, queue@, (index + 1) as nat)
            },
            _ => stop(),
        },
        ProjectState::DelAwaitingCategoryDelete { guild_id, title } => match e {
            ProjectEvent::Acknowledged => (
                ProjectStateView::DelAwaitingRoles { guild_id, title: title@ },
                ProjectActionView::FetchRoles { guild_id },
            ),
            _ => stop(),
        },
        ProjectState::DelAwaitingRoles { guild_id, title } => match e {
            ProjectEvent::Roles { listed } => {
                let role = match listed {
                    Some(rs) => project_role_ignoring_case(rs@, project_key_of_title(title@)),
                    None => None,
                };
                match role {
                    Some(role_id) => (ProjectStateView::DelAwaitingRoleDelete, ProjectActionView::DeleteRole { guild_id, role_id }),
                    None => (ProjectStateView::DelSettling, ProjectActionView::Sleep { millis: 1000 }),
                }
            },
            _ => stop(),
        },
        ProjectState::DelAwaitingRoleDelete => match e {
            ProjectEvent::Acknowledged => (ProjectStateView::DelSettling, ProjectActionView::Sleep { millis: 1000 }),
            _ => stop(),
        },
        ProjectState::DelSettling => match e {
            ProjectEvent::Acknowledged => (
                ProjectStateView::Closing,
                ProjectActionView::Notify { command: CacheCommandView::RefreshAll },
            ),
            _ => stop(),
        },
        _ => stop(),
    }
}

/// How a `/project` interaction moves on when an event comes in; an event that
/// does not fit the state ends the interaction.
pub open spec fn project_next(c: BotCache, req: ProjectRequest, s: ProjectState, e: ProjectEvent) -> (ProjectStateView, ProjectActionView) {
    match s {
        ProjectState::Starting => match e {
            ProjectEvent::Acknowledged => project_begin(c, req),
            _ => stop(),
        },
        ProjectState::Refreshing => match e {
            ProjectEvent::Acknowledged => (
                ProjectStateView::Closing,
                ProjectActionView::Notify { command: CacheCommandView::RefreshAll },
            ),
            _ => stop(),
        },
        ProjectState::Closing => stop(),
        ProjectState::Finished => stop(),
        ProjectState::GenAnnounced { .. } | ProjectState::GenAwaitingBot { .. } | ProjectState::GenAwaitingRole { .. }
        | ProjectState::GenAwaitingGrant { .. } | ProjectState::GenNotifiedPm { .. } | ProjectState::GenAwaitingCategory {
            ..
        } | ProjectState::GenCreatingText { .. } | ProjectState::GenPausing { .. } | ProjectState::GenCreatingVoice =>
            generate_next(c, req, s, e),
        ProjectState::RenAwaitingChannel { .. } | ProjectState::RenAwaitingCategory { .. } | ProjectState::RenAwaitingEdit {
            ..
        } | ProjectState::RenAwaitingRoles { .. } | ProjectState::RenAwaitingRoleEdit { .. } => rename_next(c, req, s, e),
        _ => delete_next(c, req, s, e),
    }
}

/// A state is well formed: text channels are counted below eight, and the
/// channel queue is walked within its length.
pub open spec fn project_state_wf(s: ProjectState) -> bool {
    match s {
        ProjectState::GenCreatingText { index, .. } => index < 8,
        ProjectState::GenPausing { index, .. } => index < 8,
        ProjectState::DelSweeping { queue, index, .. } => index < queue@.len(),
        _ => true,
    }
}

// ---------------------------------------------------------------------------
// The step functions
// ---------------------------------------------------------------------------

/// The first step of a `/project` interaction: defer the answer.
pub fn project_start() -> (r: (ProjectState, ProjectAction))
    ensures
        r.0@ == ProjectStateView::Starting,
        r.1@ == ProjectActionView::Defer,
{
    (ProjectState::Starting, ProjectAction::Defer)
}

fn answer_with(text: String) -> (r: (ProjectState, ProjectAction))
    ensures
        (r.0@, r.1@) == answer(text@),
        project_state_wf(r.0),
{
    (ProjectState::Closing, ProjectAction::Reply { text })
}

fn stop_now() -> (r: (ProjectState, ProjectAction))
    ensures
        (r.0@, r.1@) == stop(),
        project_state_wf(r.0),
{
    (ProjectState::Finished, ProjectAction::Finish)
}

fn read_project_subcommand(req: &ProjectRequest) -> (r: ProjectSubcommand)
    ensures
        r == project_subcommand(*req),
{
    match &req.subcommand {
        None => ProjectSubcommand::Missing,
        Some(name) => {
            if str_equal(name.as_str(), "generate") {
                ProjectSubcommand::Generate
            } else if str_equal(name.as_str(), "rename") {
                ProjectSubcommand::Rename
            } else if str_equal(name.as_str(), "delete") {
                ProjectSubcommand::Delete
            } else {
                ProjectSubcommand::Other
            }
        },
    }
}

fn begin_step(c: &BotCache, req: &ProjectRequest) -> (r: (ProjectState, ProjectAction))
    ensures
        (r.0@, r.1@) == project_begin(*c, *req),
        project_state_wf(r.0),
{
    let g = match req.guild_id {
        None => {
            return answer_with("❌ 이 명령어는 서버 안에서만 사용 가능합니다.".to_owned());
        },
        Some(g) => g,
    };
    match read_project_subcommand(req) {
        ProjectSubcommand::Missing => answer_with("❌ 올바른 하위 명령어를 선택해주세요.".to_owned()),
        ProjectSubcommand::Generate => {
            if req.name_arg.as_str().is_empty() {
                answer_with("⚠️ 생성할 프로젝트 이름을 제대로 입력해주세요.".to_owned())
            } else if c.has_project(&req.name_arg) {
                answer_with(quoted("❌ 이미 '", req.name_arg.as_str(), "' 이름의 프로젝트가 존재합니다."))
            } else {
                let text = quoted("🏗️ '", req.name_arg.as_str(), "' 프로젝트 생성을 시작합니다. 세팅 중...");
                (ProjectState::GenAnnounced { name: req.name_arg.clone(), guild_id: g }, ProjectAction::Reply { text })
            }
        },
        ProjectSubcommand::Rename => {
            if req.name_arg.as_str().is_empty() {
                answer_with("⚠️ 변경할 새 이름을 입력해주세요.".to_owned())
            } else {
                (
                    ProjectState::RenAwaitingChannel { new_name: req.name_arg.clone(), guild_id: g },
                    ProjectAction::FetchChannel { channel_id: req.channel_id },
                )
            }
        },
        ProjectSubcommand::Delete => (ProjectState::DelAwaitingGuild { guild_id: g }, ProjectAction::FetchGuild { guild_id: g }),
        ProjectSubcommand::Other => stop_now(),
    }
}

/// The name of a new project's PM, as written into its category's title.
pub fn creator_display_name(c: &BotCache, req: &ProjectRequest) -> (r: String)
    ensures
        r@ == creator_name(*c, *req),
{
    match c.member_display_name(req.user_id) {
        Some(n) => n,
        None => display_name(&req.member_nick, &req.user_global_name, &req.user_name),
    }
}

/// The name of a project's PM, as written into its renamed category's title.
pub fn recorded_pm_display_name(c: &BotCache, project: &String) -> (r: String)
    ensures
        r@ == recorded_pm_name(*c, project@),
{
    match c.project_pm(project) {
        Some(pm) => match c.member_display_name(pm) {
            Some(n) => n,
            None => "Unknown PM".to_owned(),
        },
        None => "Unknown PM".to_owned(),
    }
}

/// The ids of the channels in the category, other than the current one.
pub fn channels_to_sweep(channels: &Vec<ChannelRecord>, category_id: u64, current: u64) -> (r: Vec<u64>)
    ensures
        r@ == sweep_victims(channels@, category_id, current),
        forall|j: int|
            0 <= j < channels@.len() && #[trigger] channels@[j].parent_id == Some(category_id) && channels@[j].id
                != current ==> r@.contains(channels@[j].id),
        forall|k: int|
            0 <= k < r@.len() ==> #[trigger] r@[k] != current && exists|j: int|
                0 <= j < channels@.len() && channels@[j].id == r@[k] && channels@[j].parent_id == Some(category_id),
{
    proof {
        lemma_sweep_victims_complete(channels@, category_id, current);
        lemma_sweep_victims_sound(channels@, category_id, current);
    }
    let mut r: Vec<u64> = Vec::new();
    let n = channels.len();
    let mut i: usize = 0;
    while i < n
        invariant
            n == channels@.len(),
            i <= n,
            r@ == sweep_victims(channels@.take(i as int), category_id, current),
        decreases n - i,
    {
        assert(channels@.take(i + 1).drop_last() =~= channels@.take(i as int));
        let ch = &channels[i];
        let inside = match ch.parent_id {
            Some(p) => p == category_id,
            None => false,
        };
        if inside && ch.id != current {
            r.push(ch.id);
        }
        i = i + 1;
    }
    assert(channels@.take(n as int) =~= channels@);
    r
}

fn generate_step(c: &BotCache, req: &ProjectRequest, s: ProjectState, e: ProjectEvent) -> (r: (ProjectState, ProjectAction))
    requires
        project_state_wf(s),
    ensures
        (r.0@, r.1@) == generate_next(*c, *req, s, e),
        project_state_wf(r.0),
{
    match s {
        ProjectState::GenAnnounced { name, guild_id } => match e {
            ProjectEvent::Acknowledged => (ProjectState::GenAwaitingBot { name, guild_id }, ProjectAction::FetchCurrentUser),
            _ => stop_now(),
        },
        ProjectState::GenAwaitingBot { name, guild_id } => match e {
            ProjectEvent::CurrentUser { result } => match result {
                Err(err) => answer_with(prefixed("❌ 봇 정보를 가져오지 못했습니다: ", err.as_str())),
                Ok(bot_id) => {
                    let role_name = name.clone();
                    (ProjectState::GenAwaitingRole { name, guild_id, bot_id }, ProjectAction::CreateRole { guild_id, name: role_name })
                },
            },
            _ => stop_now(),
        },
        ProjectState::GenAwaitingRole { name, guild_id, bot_id } => match e {
            ProjectEvent::RoleCreated { result } => match result {
                Err(err) => answer_with(prefixed("❌ 역할 생성 실패: ", err.as_str())),
                Ok(role_id) => (
                    ProjectState::GenAwaitingGrant { name, guild_id, bot_id, role_id },
                    ProjectAction::GrantRole { guild_id, user_id: req.user_id, role_id },
                ),
            },
            _ => stop_now(),
        },
        ProjectState::GenAwaitingGrant { name, guild_id, bot_id, role_id } => match e {
            ProjectEvent::Acknowledged => {
                let pm_name = creator_display_name(c, req);
                let title = category_title(name.as_str(), pm_name.as_str());
                if c.has_member(req.user_id) {
                    proof {
                        c.member_ids().index_of_first_ensures(req.user_id);
                    }
                    (
                        ProjectState::GenAwaitingCategory { guild_id, bot_id, role_id },
                        ProjectAction::CreateChannel { guild_id, plan: make_category_plan(guild_id, role_id, bot_id, title) },
                    )
                } else {
                    proof {
                        c.member_ids().index_of_first_ensures(req.user_id);
                    }
                    (
                        ProjectState::GenNotifiedPm { guild_id, bot_id, role_id, title },
                        ProjectAction::Notify {
                            command: CacheCommand::UpdateSingleMember { user_id: req.user_id, display_name: req.user_name.clone() },
                        },
                    )
                }
            },
            _ => stop_now(),
        },
        ProjectState::GenNotifiedPm { guild_id, bot_id, role_id, title } => match e {
            ProjectEvent::Acknowledged => (
                ProjectState::GenAwaitingCategory { guild_id, bot_id, role_id },
                ProjectAction::CreateChannel { guild_id, plan: make_category_plan(guild_id, role_id, bot_id, title) },
            ),
            _ => stop_now(),
        },
        ProjectState::GenAwaitingCategory { guild_id, bot_id, role_id } => match e {
            ProjectEvent::CategoryCreated { result } => match result {
                Err(err) => (
                    ProjectState::Refreshing,
                    ProjectAction::Reply { text: prefixed("❌ 카테고리 생성 실패: ", err.as_str()) },
                ),
                Ok(category_id) => (
                    ProjectState::GenCreatingText { guild_id, bot_id, role_id, category_id, index: 0 },
                    ProjectAction::CreateChannel {
                        guild_id,
                        plan: make_text_channel_plan(0, guild_id, role_id, bot_id, req.user_id, category_id),
                    },
                ),
            },
            _ => stop_now(),
        },
        ProjectState::GenCreatingText { guild_id, bot_id, role_id, category_id, index } => match e {
            ProjectEvent::Acknowledged => (
                ProjectState::GenPausing { guild_id, bot_id, role_id, category_id, index },
                ProjectAction::Sleep { millis: 100 },
            ),
            _ => stop_now(),
        },
        ProjectState::GenPausing { guild_id, bot_id, role_id, category_id, index } => match e {
            ProjectEvent::Acknowledged => {
                if index + 1 < 8 {
                    (
                        ProjectState::GenCreatingText { guild_id, bot_id, role_id, category_id, index: index + 1 },
                        ProjectAction::CreateChannel {
                            guild_id,
                            plan: make_text_channel_plan(index + 1, guild_id, role_id, bot_id, req.user_id, category_id),
                        },
                    )
                } else {
                    (
                        ProjectState::GenCreatingVoice,
                        ProjectAction::CreateChannel { guild_id, plan: make_voice_channel_plan(category_id) },
                    )
                }
            },
            _ => stop_now(),
        },
        ProjectState::GenCreatingVoice => match e {
            ProjectEvent::Acknowledged => {
                let mut text = "🚀 ".to_owned();
                let m = mention(req.user_id);
                text.append(m.as_str());
                text.append(" 님, 프로젝트 서버 세팅이 완료되었습니다!");
                (ProjectState::Refreshing, ProjectAction::Reply { text })
            },
            _ => stop_now(),
        },
        _ => stop_now(),
    }
}

fn rename_step(c: &BotCache, req: &ProjectRequest, s: ProjectState, e: ProjectEvent) -> (r: (ProjectState, ProjectAction))
    ensures
        (r.0@, r.1@) == rename_next(*c, *req, s, e),
        project_state_wf(r.0),
{
    match s {
        ProjectState::RenAwaitingChannel { new_name, guild_id } => match e {
            ProjectEvent::Channel { in_guild, parent_id } => {
                if !in_guild {
                    stop_now()
                } else {
                    match parent_id {
                        None => answer_with("❌ 이 명령어는 프로젝트 카테고리 내부 채널에서 실행해야 합니다.".to_owned()),
                        Some(cat) => {
                            if c.has_project(&new_name) {
                                answer_with(quoted("❌ 이미 '", new_name.as_str(), "' 이름의 프로젝트가 존재합니다."))
                            } else {
                                (
                                    ProjectState::RenAwaitingCategory { new_name, guild_id, category_id: cat },
                                    ProjectAction::FetchCategory { category_id: cat },
                                )
                            }
                        },
                    }
                }
            },
            _ => stop_now(),
        },
        ProjectState::RenAwaitingCategory { new_name, guild_id, category_id } => match e {
            ProjectEvent::Category { title } => {
                let old = match &title {
                    Some(t) => project_of_category(t.as_str()),
                    None => String::new(),
                };
                let pm_name = recorded_pm_display_name(c, &old);
                let name = category_title(new_name.as_str(), pm_name.as_str());
                (
                    ProjectState::RenAwaitingEdit { new_name, old_name: old, guild_id },
                    ProjectAction::RenameChannel { channel_id: category_id, name },
                )
            },
            _ => stop_now(),
        },
        ProjectState::RenAwaitingEdit { new_name, old_name, guild_id } => match e {
            ProjectEvent::ChannelRenamed { error } => match error {
                Some(err) => answer_with(prefixed("❌ 이름 변경 실패: ", err.as_str())),
                None => (ProjectState::RenAwaitingRoles { new_name, old_name, guild_id }, ProjectAction::FetchRoles { guild_id }),
            },
            _ => stop_now(),
        },
        ProjectState::RenAwaitingRoles { new_name, old_name, guild_id } => match e {
            ProjectEvent::Roles { listed } => {
                let role = match &listed {
                    Some(rs) => find_project_role(rs, &old_name),
                    None => None,
                };
                match role {
                    Some(role_id) => {
                        let name = new_name.clone();
                        (ProjectState::RenAwaitingRoleEdit { new_name }, ProjectAction::RenameRole { guild_id, role_id, name })
                    },
                    None => {
                        let text = quoted(
                            "📝 프로젝트 이름은 '",
                            new_name.as_str(),
                            "'으로 변경되었으나, 동명의 기존 역할을 찾지 못했습니다.",
                        );
                        (ProjectState::Refreshing, ProjectAction::Reply { text })
                    },
                }
            },
            _ => stop_now(),
        },
        ProjectState::RenAwaitingRoleEdit { new_name } => match e {
            ProjectEvent::RoleRenamed { ok } => {
                let text = if ok {
                    quoted("📝 프로젝트 카테고리와 역할 이름이 모두 '", new_name.as_str(), "'으로 변경되었습니다.")
                } else {
                    quoted(
                        "📝 프로젝트 이름은 '",
                        new_name.as_str(),
                        "'으로 변경되었으나, 동명의 기존 역할을 찾지 못했습니다.",
                    )
                };
                (ProjectState::Refreshing, ProjectAction::Reply { text })
            },
            _ => stop_now(),
        },
        _ => stop_now(),
    }
}

fn sweep_step(guild_id: u64, category_id: u64, title: String, queue: Vec<u64>, index: usize) -> (r: (ProjectState, ProjectAction))
    requires
        index <= queue@.len(),
    ensures
        (r.0@, r.1@) == sweep_from(guild_id, category_id, title@, queue@, index as nat),
        project_state_wf(r.0),
{
    if index < queue.len() {
        let channel_id = queue[index];
        (
            ProjectState::DelSweeping { guild_id, category_id, title, queue, index, pausing: false },
            ProjectAction::DeleteChannel { channel_id },
        )
    } else {
        (ProjectState::DelAwaitingCategoryDelete { guild_id, title }, ProjectAction::DeleteChannel { channel_id: category_id })
    }
}

fn delete_step(c: &BotCache, req: &ProjectRequest, s: ProjectState, e: ProjectEvent) -> (r: (ProjectState, ProjectAction))
    requires
        project_state_wf(s),
    ensures
        (r.0@, r.1@) == delete_next(*c, *req, s, e),
        project_state_wf(r.0),
{
    match s {
        ProjectState::DelAwaitingGuild { guild_id } => match e {
            ProjectEvent::Guild { owner_id, roles } => match &req.member_role_ids {
                None => stop_now(),
                Some(mr) => {
                    if check_admin(owner_id, req.user_id, mr, &roles) {
                        (ProjectState::DelAwaitingChannel { guild_id }, ProjectAction::FetchChannel { channel_id: req.channel_id })
                    } else {
                        answer_with("❌ 이 명령어는 서버 관리자(ADMINISTRATOR) 권한이 필요합니다.".to_owned())
                    }
                },
            },
            _ => stop_now(),
        },
        ProjectState::DelAwaitingChannel { guild_id } => match e {
            ProjectEvent::Channel { in_guild, parent_id } => {
                if !in_guild {
                    stop_now()
                } else {
                    match parent_id {
                        None => answer_with("❌ 삭제할 프로젝트 카테고리 내부의 채널에서 명령어를 입력해주세요.".to_owned()),
                        Some(cat) => (
                            ProjectState::DelAwaitingCategory { guild_id, category_id: cat },
                            ProjectAction::FetchCategory { category_id: cat },
                        ),
                    }
                }
            },
            _ => stop_now(),
        },
        ProjectState::DelAwaitingCategory { guild_id, category_id } => match e {
            ProjectEvent::Category { title } => match title {
                Some(t) => {
                    let key = project_key_of_category(t.as_str());
                    if !c.has_project(&key) {
                        answer_with("❌ 프로젝트 카테고리 내부 채널에서 명령어를 입력해주세요.".to_owned())
                    } else {
                        (
                            ProjectState::DelAnnounced { guild_id, category_id, title: t },
                            ProjectAction::Reply { text: "🧹 프로젝트 채널들과 역할을 완전히 삭제합니다...".to_owned() },
                        )
                    }
                },
                None => (
                    ProjectState::DelAnnounced { guild_id, category_id, title: String::new() },
                    ProjectAction::Reply { text: "🧹 프로젝트 채널들과 역할을 완전히 삭제합니다...".to_owned() },
                ),
            },
            _ => stop_now(),
        },
        ProjectState::DelAnnounced { guild_id, category_id, title } => match e {
            ProjectEvent::Acknowledged => (
                ProjectState::DelAwaitingChannels { guild_id, category_id, title },
                ProjectAction::ListChannels { guild_id },
            ),
            _ => stop_now(),
        },
        ProjectState::DelAwaitingChannels { guild_id, category_id, title } => match e {
            ProjectEvent::Channels { channels } => match channels {
                None => sweep_step(guild_id, category_id, title, Vec::new(), 0),
                Some(list) => {
                    let mut queue = channels_to_sweep(&list, category_id, req.channel_id);
                    queue.push(req.channel_id);
                    sweep_step(guild_id, category_id, title, queue, 0)
                },
            },
            _ => stop_now(),
        },
        ProjectState::DelSweeping { guild_id, category_id, title, queue, index, pausing } => match e {
            ProjectEvent::Acknowledged => {
                if !pausing {
                    (
                        ProjectState::DelSweeping { guild_id, category_id, title, queue, index, pausing: true },
                        ProjectAction::Sleep { millis: 100 },
                    )
                } else {
                    let n = queue.len();
                    assert(index < n);
                    sweep_step(guild_id, category_id, title, queue, index + 1)
                }
            },
            _ => stop_now(),
        },
        ProjectState::DelAwaitingCategoryDelete { guild_id, title } => match e {
            ProjectEvent::Acknowledged => (ProjectState::DelAwaitingRoles { guild_id, title }, ProjectAction::FetchRoles { guild_id }),
            _ => stop_now(),
        },
        ProjectState::DelAwaitingRoles { guild_id, title } => match e {
            ProjectEvent::Roles { listed } => {
                let key = project_key_of_category(title.as_str());
                let role = match &listed {
                    Some(rs) => find_project_role(rs, &key),
                    None => None,
                };
                match role {
                    Some(role_id) => (ProjectState::DelAwaitingRoleDelete, ProjectAction::DeleteRole { guild_id, role_id }),
                    None => (ProjectState::DelSettling, ProjectAction::Sleep { millis: 1000 }),
                }
            },
            _ => stop_now(),
        },
        ProjectState::DelAwaitingRoleDelete => match e {
            ProjectEvent::Acknowledged => (ProjectState::DelSettling, ProjectAction::Sleep { millis: 1000 }),
            _ => stop_now(),
        },
        ProjectState::DelSettling => match e {
            ProjectEvent::Acknowledged => (ProjectState::Closing, ProjectAction::Notify { command: CacheCommand::RefreshAll }),
            _ => stop_now(),
        },
        _ => stop_now(),
    }
}

/// Moves a `/project` interaction on by one event: the next state and the next
/// action for the caller, exactly as `project_next` says.
pub fn project_step(c: &BotCache, req: &ProjectRequest, s: ProjectState, e: ProjectEvent) -> (r: (ProjectState, ProjectAction))
    requires
        project_state_wf(s),
    ensures
        (r.0@, r.1@) == project_next(*c, *req, s, e),
        project_state_wf(r.0),
{
    match s {
        ProjectState::Starting => match e {
            ProjectEvent::Acknowledged => begin_step(c, req),
            _ => stop_now(),
        },
        ProjectState::Refreshing => match e {
            ProjectEvent::Acknowledged => (ProjectState::Closing, ProjectAction::Notify { command: CacheCommand::RefreshAll }),
            _ => stop_now(),
        },
        ProjectState::Closing => stop_now(),
        ProjectState::Finished => stop_now(),
        ProjectState::GenAnnounced { .. } | ProjectState::GenAwaitingBot { .. } | ProjectState::GenAwaitingRole { .. }
        | ProjectState::GenAwaitingGrant { .. } | ProjectState::GenNotifiedPm { .. } | ProjectState::GenAwaitingCategory {
            ..
        } | ProjectState::GenCreatingText { .. } | ProjectState::GenPausing { .. } | ProjectState::GenCreatingVoice =>
            generate_step(c, req, s, e),
        ProjectState::RenAwaitingChannel { .. } | ProjectState::RenAwaitingCategory { .. } | ProjectState::RenAwaitingEdit {
            ..
        } | ProjectState::RenAwaitingRoles { .. } | ProjectState::RenAwaitingRoleEdit { .. } => rename_step(c, req, s, e),
        _ => delete_step(c, req, s, e),
    }
}

// ---------------------------------------------------------------------------
// Laws of the `/project` command
// ---------------------------------------------------------------------------

/// The states of `/project delete` that come after the permission check.
pub open spec fn past_admin_check(s: ProjectState) -> bool {
    match s {
        ProjectState::DelAwaitingChannel { .. } | ProjectState::DelAwaitingCategory { .. } | ProjectState::DelAnnounced { .. }
        | ProjectState::DelAwaitingChannels { .. } | ProjectState::DelSweeping { .. }
        | ProjectState::DelAwaitingCategoryDelete { .. } | ProjectState::DelAwaitingRoles { .. }
        | ProjectState::DelAwaitingRoleDelete | ProjectState::DelSettling => true,
        _ => false,
    }
}

/// The same states, as views.
pub open spec fn view_past_admin_check(s: ProjectStateView) -> bool {
    match s {
        ProjectStateView::DelAwaitingChannel { .. } | ProjectStateView::DelAwaitingCategory { .. }
        | ProjectStateView::DelAnnounced { .. } | ProjectStateView::DelAwaitingChannels { .. }
        | ProjectStateView::DelSweeping { .. } | ProjectStateView::DelAwaitingCategoryDelete { .. }
        | ProjectStateView::DelAwaitingRoles { .. } | ProjectStateView::DelAwaitingRoleDelete
        | ProjectStateView::DelSettling => true,
        _ => false,
    }
}

/// Only an administrator deletes: channels and roles are deleted only in the
/// states past the permission check, and those states are entered only from
/// within them, or from the server lookup when the user is the server's owner
/// or holds a role that grants administrator.
pub proof fn lemma_delete_needs_admin(c: BotCache, req: ProjectRequest, s: ProjectState, e: ProjectEvent)
    ensures
        (project_next(c, req, s, e).1 is DeleteChannel || project_next(c, req, s, e).1 is DeleteRole) ==> past_admin_check(s),
        view_past_admin_check(project_next(c, req, s, e).0) ==> past_admin_check(s) || {
            &&& s is DelAwaitingGuild
            &&& e matches ProjectEvent::Guild { owner_id, roles }
            &&& req.member_role_ids matches Some(mr)
            &&& is_admin(owner_id, req.user_id, mr@, roles@)
        },
{
}

/// Every channel queued for deletion before the current one is listed in the
/// project's category and is not the channel the command was run in.
pub proof fn lemma_sweep_victims_sound(channels: Seq<ChannelRecord>, category_id: u64, current: u64)
    ensures
        forall|i: int|
            0 <= i < sweep_victims(channels, category_id, current).len() ==> {
                let id = #[trigger] sweep_victims(channels, category_id, current)[i];
                &&& id != current
                &&& exists|j: int| 0 <= j < channels.len() && channels[j].id == id && channels[j].parent_id == Some(category_id)
            },
    decreases channels.len(),
{
    if channels.len() > 0 {
        let init = channels.drop_last();
        lemma_sweep_victims_sound(init, category_id, current);
        let rest = sweep_victims(init, category_id, current);
        assert forall|i: int| 0 <= i < sweep_victims(channels, category_id, current).len() implies {
            let id = #[trigger] sweep_victims(channels, category_id, current)[i];
            &&& id != current
            &&& exists|j: int| 0 <= j < channels.len() && channels[j].id == id && channels[j].parent_id == Some(category_id)
        } by {
            if i < rest.len() {
                let id = rest[i];
                let j = choose|j: int| 0 <= j < init.len() && init[j].id == id && init[j].parent_id == Some(category_id);
                assert(channels[j] == init[j]);
            } else {
                assert(channels[channels.len() - 1] == channels.last());
            }
        }
    }
}

/// The sweep misses nothing: every listed channel in the project's category,
/// other than the one the command was run in, is queued for deletion.
pub proof fn lemma_sweep_victims_complete(channels: Seq<ChannelRecord>, category_id: u64, current: u64)
    ensures
        forall|j: int|
            0 <= j < channels.len() && #[trigger] channels[j].parent_id == Some(category_id) && channels[j].id
                != current ==> sweep_victims(channels, category_id, current).contains(channels[j].id),
    decreases channels.len(),
{
    if channels.len() > 0 {
        let init = channels.drop_last();
        lemma_sweep_victims_complete(init, category_id, current);
        let rest = sweep_victims(init, category_id, current);
        let all = sweep_victims(channels, category_id, current);
        assert forall|j: int|
            0 <= j < channels.len() && #[trigger] channels[j].parent_id == Some(category_id) && channels[j].id
                != current implies all.contains(channels[j].id) by {
            if j < channels.len() - 1 {
                assert(init[j] == channels[j]);
                assert(rest.contains(init[j].id));
                let k = choose|k: int| 0 <= k < rest.len() && rest[k] == init[j].id;
                if channels.last().id != current && channels.last().parent_id == Some(category_id) {
                    assert(all[k] == rest[k]);
                }
            } else {
                assert(all[rest.len() as int] == channels.last().id);
            }
        }
    }
}

/// The queue that deletion walks holds exactly the channels of the project's
/// category (other than the current one) and then the current channel: each
/// such channel is in it, and everything in it is such a channel or the
/// current one.
pub proof fn lemma_delete_queue_exact(c: BotCache, req: ProjectRequest, s: ProjectState, e: ProjectEvent)
    requires
        s is DelAwaitingChannels,
        e matches ProjectEvent::Channels { channels } && channels is Some,
    ensures
        match (s, e, project_next(c, req, s, e).0) {
            (
                ProjectState::DelAwaitingChannels { category_id, .. },
                ProjectEvent::Channels { channels },
                ProjectStateView::DelSweeping { queue, index, pausing, .. },
            ) => {
                let listed = channels->0@;
                &&& index == 0 && !pausing
                &&& queue.len() > 0 && queue.last() == req.channel_id
                &&& forall|j: int|
                    0 <= j < listed.len() && #[trigger] listed[j].parent_id == Some(category_id) && listed[j].id
                        != req.channel_id ==> queue.contains(listed[j].id)
                &&& forall|k: int|
                    0 <= k < queue.len() - 1 ==> #[trigger] queue[k] != req.channel_id && exists|j: int|
                        0 <= j < listed.len() && listed[j].id == queue[k] && listed[j].parent_id == Some(category_id)
            },
            _ => false,
        },
{
    match (s, e) {
        (ProjectState::DelAwaitingChannels { category_id, .. }, ProjectEvent::Channels { channels }) => {
            let listed = channels->0@;
            lemma_sweep_victims_complete(listed, category_id, req.channel_id);
            lemma_sweep_victims_sound(listed, category_id, req.channel_id);
            let v = sweep_victims(listed, category_id, req.channel_id);
            let q = v.push(req.channel_id);
            assert forall|j: int|
                0 <= j < listed.len() && #[trigger] listed[j].parent_id == Some(category_id) && listed[j].id
                    != req.channel_id implies q.contains(listed[j].id) by {
                assert(v.contains(listed[j].id));
                let k = choose|k: int| 0 <= k < v.len() && v[k] == listed[j].id;
                assert(q[k] == v[k]);
            }
            assert forall|k: int| 0 <= k < q.len() - 1 implies #[trigger] q[k] != req.channel_id && exists|j: int|
                0 <= j < listed.len() && listed[j].id == q[k] && listed[j].parent_id == Some(category_id) by {
                assert(q[k] == v[k]);
            }
        },
        _ => {},
    }
}

/// When the channel list comes in, the channels to delete are the project's
/// other channels, then the one the command was run in; the category itself
/// follows them.
pub proof fn lemma_delete_order(c: BotCache, req: ProjectRequest, s: ProjectState, e: ProjectEvent)
    requires
        s matches ProjectState::DelAwaitingChannels { .. },
        e matches ProjectEvent::Channels { channels } && channels is Some,
    ensures
        match (s, e) {
            (ProjectState::DelAwaitingChannels { guild_id, category_id, title }, ProjectEvent::Channels { channels }) => {
                let queue = sweep_victims(channels->0@, category_id, req.channel_id).push(req.channel_id);
                &&& project_next(c, req, s, e).0 == (ProjectStateView::DelSweeping {
                    guild_id,
                    category_id,
                    title: title@,
                    queue,
                    index: 0,
                    pausing: false,
                })
                &&& project_next(c, req, s, e).1 == (ProjectActionView::DeleteChannel { channel_id: queue[0] })
            },
            _ => false,
        },
{
}

/// A new project is set up only under a name that is not empty and that no
/// known project has; renaming goes on only to such a name.
pub proof fn lemma_names_are_fresh(c: BotCache, req: ProjectRequest, s: ProjectState, e: ProjectEvent)
    ensures
        project_next(c, req, s, e).0 matches ProjectStateView::GenAnnounced { name, .. } ==> {
            &&& s is Starting
            &&& name == req.name_arg@
            &&& name.len() > 0
            &&& !c.project_names().contains(name)
        },
        project_next(c, req, s, e).0 matches ProjectStateView::RenAwaitingCategory { new_name, .. } ==> {
            &&& s matches ProjectState::RenAwaitingChannel { new_name: n, .. }
            &&& n@ == new_name
            &&& !c.project_names().contains(new_name)
        },
{
}

/// The category created for a project is titled after it and its PM, so that
/// reading the title back (as `/member`, `/project rename` and `/project
/// delete` do) gives the project's trimmed name, provided the name does not
/// itself hold `(PM:`.
pub proof fn lemma_generated_title_names_project(c: BotCache, req: ProjectRequest, s: ProjectState, e: ProjectEvent)
    requires
        s matches ProjectState::GenAwaitingGrant { name, .. } && !contains_seq(name@, pm_marker()),
        e is Acknowledged,
    ensures
        match s {
            ProjectState::GenAwaitingGrant { name, .. } => {
                let title = category_title_of(name@, creator_name(c, req));
                &&& project_of_title(title) == trimmed(name@)
                &&& project_key_of_title(title) == trimmed(name@)
                &&& match project_next(c, req, s, e) {
                    (ProjectStateView::GenNotifiedPm { title: t, .. }, _) => t == title,
                    (_, ProjectActionView::CreateChannel { plan, .. }) => plan.name == title,
                    _ => false,
                }
            },
            _ => false,
        },
{
    match s {
        ProjectState::GenAwaitingGrant { name, .. } => {
            lemma_title_round_trip(name@, creator_name(c, req));
        },
        _ => {},
    }
}

/// A category is emptied only when its title names a known project; the one
/// exception is a category whose name could not be read at all, which is
/// emptied under an empty title.
pub proof fn lemma_delete_only_projects(c: BotCache, req: ProjectRequest, s: ProjectState, e: ProjectEvent)
    ensures
        project_next(c, req, s, e).0 matches ProjectStateView::DelAnnounced { title, category_id, .. } ==> {
            &&& s matches ProjectState::DelAwaitingCategory { category_id: cat, .. }
            &&& cat == category_id
            &&& e matches ProjectEvent::Category { title: read }
            &&& match read {
                Some(t) => t@ == title && c.project_names().contains(project_key_of_title(t@)),
                None => title.len() == 0,
            }
        },
{
}

/// When renaming, the category's new title is the new name followed by the
/// old project's recorded PM: the cached name of the PM that the cache records
/// for the project read from the old title, or `Unknown PM` when there is none
/// or the PM is not a known member. Who runs the command does not matter: any
/// two requests take the same step here.
pub proof fn lemma_rename_keeps_recorded_pm(
    c: BotCache,
    req: ProjectRequest,
    other: ProjectRequest,
    s: ProjectState,
    e: ProjectEvent,
)
    requires
        s is RenAwaitingCategory,
        e matches ProjectEvent::Category { title } && title is Some,
    ensures
        match (s, e, project_next(c, req, s, e).1) {
            (
                ProjectState::RenAwaitingCategory { new_name, category_id, .. },
                ProjectEvent::Category { title },
                ProjectActionView::RenameChannel { channel_id, name },
            ) => {
                let old = project_of_title(title->0@);
                let pm_part = if c.pm_of(old) is Some && c.member_name(c.pm_of(old)->0) is Some {
                    c.member_name(c.pm_of(old)->0)->0
                } else {
                    "Unknown PM"@
                };
                &&& channel_id == category_id
                &&& name == new_name@ + "(PM: "@ + pm_part + ")"@
            },
            _ => false,
        },
        project_next(c, req, s, e) == project_next(c, other, s, e),
{
}

/// Generate walks the whole layout: the role is created under the project's
/// name and given to the creator; once the category exists the first text
/// channel is created in it; each text channel is followed by a pause of 100
/// ms; after the pause the next text channel is created, and after the eighth
/// the voice channel, all in the new category.
pub proof fn lemma_generate_walks_layout(c: BotCache, req: ProjectRequest, s: ProjectState, e: ProjectEvent)
    ensures
        (s matches ProjectState::GenAwaitingBot { name, guild_id } && e matches ProjectEvent::CurrentUser { result }
            && result is Ok) ==> project_next(c, req, s, e).1 == (ProjectActionView::CreateRole {
            guild_id: s->GenAwaitingBot_guild_id,
            name: s->GenAwaitingBot_name@,
        }),
        (s matches ProjectState::GenAwaitingRole { guild_id, .. } && e matches ProjectEvent::RoleCreated { result }
            && result is Ok) ==> project_next(c, req, s, e).1 == (ProjectActionView::GrantRole {
            guild_id: s->GenAwaitingRole_guild_id,
            user_id: req.user_id,
            role_id: e->RoleCreated_result->Ok_0,
        }),
        (s matches ProjectState::GenAwaitingCategory { guild_id, bot_id, role_id } && e matches ProjectEvent::CategoryCreated {
            result,
        } && result is Ok) ==> project_next(c, req, s, e).1 == (ProjectActionView::CreateChannel {
            guild_id: s->GenAwaitingCategory_guild_id,
            plan: text_channel_plan(
                0,
                s->GenAwaitingCategory_guild_id,
                s->GenAwaitingCategory_role_id,
                s->GenAwaitingCategory_bot_id,
                req.user_id,
                e->CategoryCreated_result->Ok_0,
            ),
        }),
        (s is GenCreatingText && e is Acknowledged) ==> project_next(c, req, s, e).1 == (ProjectActionView::Sleep {
            millis: 100,
        }),
        (s matches ProjectState::GenPausing { index, .. } && index + 1 < 8 && e is Acknowledged) ==> project_next(
            c,
            req,
            s,
            e,
        ).1 == (ProjectActionView::CreateChannel {
            guild_id: s->GenPausing_guild_id,
            plan: text_channel_plan(
                (s->GenPausing_index + 1) as nat,
                s->GenPausing_guild_id,
                s->GenPausing_role_id,
                s->GenPausing_bot_id,
                req.user_id,
                s->GenPausing_category_id,
            ),
        }),
        (s matches ProjectState::GenPausing { index, .. } && index + 1 >= 8 && e is Acknowledged) ==> project_next(
            c,
            req,
            s,
            e,
        ).1 == (ProjectActionView::CreateChannel {
            guild_id: s->GenPausing_guild_id,
            plan: voice_channel_plan(s->GenPausing_category_id),
        }),
{
}

/// The role that delete removes is the first role named like the project read
/// from the category's title (ignoring case); when no role is named so (or the
/// name is empty), no role is deleted and the command goes on to wait.
pub proof fn lemma_delete_removes_project_role(c: BotCache, req: ProjectRequest, s: ProjectState, e: ProjectEvent)
    requires
        s is DelAwaitingRoles,
        e matches ProjectEvent::Roles { listed } && listed is Some,
    ensures
        match (s, e, project_next(c, req, s, e).1) {
            (ProjectState::DelAwaitingRoles { guild_id, title }, ProjectEvent::Roles { listed }, a) => {
                let rs = listed->0@;
                let key = project_key_of_title(title@);
                match a {
                    ProjectActionView::DeleteRole { guild_id: g, role_id } => g == guild_id && key.len() > 0 && exists|i: int|
                        0 <= i < rs.len() && rs[i].id == role_id && lowercase(#[trigger] rs[i].name@) == lowercase(key)
                            && forall|j: int| 0 <= j < i ==> lowercase(#[trigger] rs[j].name@) != lowercase(key),
                    ProjectActionView::Sleep { millis } => millis == 1000 && (key.len() == 0 || forall|i: int|
                        0 <= i < rs.len() ==> lowercase(#[trigger] rs[i].name@) != lowercase(key)),
                    _ => false,
                }
            },
            _ => false,
        },
{
    match (s, e) {
        (ProjectState::DelAwaitingRoles { title, .. }, ProjectEvent::Roles { listed }) => {
            lemma_project_role_is_first_match(listed->0@, project_key_of_title(title@));
        },
        _ => {},
    }
}

/// The role that rename renames is the first role named like the old project
/// (ignoring case), and it gets the new name; with no such role, none is renamed.
pub proof fn lemma_rename_renames_project_role(c: BotCache, req: ProjectRequest, s: ProjectState, e: ProjectEvent)
    requires
        s is RenAwaitingRoles,
        e matches ProjectEvent::Roles { listed } && listed is Some,
    ensures
        match (s, e, project_next(c, req, s, e).1) {
            (ProjectState::RenAwaitingRoles { new_name, old_name, guild_id }, ProjectEvent::Roles { listed }, a) => {
                let rs = listed->0@;
                match a {
                    ProjectActionView::RenameRole { guild_id: g, role_id, name } => g == guild_id && name == new_name@
                        && old_name@.len() > 0 && exists|i: int|
                        0 <= i < rs.len() && rs[i].id == role_id && lowercase(#[trigger] rs[i].name@) == lowercase(old_name@)
                            && forall|j: int| 0 <= j < i ==> lowercase(#[trigger] rs[j].name@) != lowercase(old_name@),
                    ProjectActionView::Reply { text } => text == msg_renamed_without_role(new_name@) && (old_name@.len()
                        == 0 || forall|i: int| 0 <= i < rs.len() ==> lowercase(#[trigger] rs[i].name@) != lowercase(old_name@)),
                    _ => false,
                }
            },
            _ => false,
        },
{
    match (s, e) {
        (ProjectState::RenAwaitingRoles { old_name, .. }, ProjectEvent::Roles { listed }) => {
            lemma_project_role_is_first_match(listed->0@, old_name@);
        },
        _ => {},
    }
}

/// A renamed category is titled after the new name and the recorded PM, so
/// that reading the title back gives the new (trimmed) name, provided the new
/// name does not itself hold `(PM:`.
pub proof fn lemma_renamed_title_names_project(c: BotCache, req: ProjectRequest, s: ProjectState, e: ProjectEvent)
    requires
        s matches ProjectState::RenAwaitingCategory { new_name, .. } && !contains_seq(new_name@, pm_marker()),
        e is Category,
    ensures
        match (s, project_next(c, req, s, e).1) {
            (ProjectState::RenAwaitingCategory { new_name, .. }, ProjectActionView::RenameChannel { name, .. }) => {
                &&& project_of_title(name) == trimmed(new_name@)
                &&& project_key_of_title(name) == trimmed(new_name@)
            },
            _ => false,
        },
{
    match (s, e) {
        (ProjectState::RenAwaitingCategory { new_name, .. }, ProjectEvent::Category { title }) => {
            let old = match title {
                Some(t) => project_of_title(t@),
                None => Seq::empty(),
            };
            lemma_title_round_trip(new_name@, recorded_pm_name(c, old));
        },
        _ => {},
    }
}

// ---------------------------------------------------------------------------
// Registration
// ---------------------------------------------------------------------------

/// The definition of `/project`.
pub fn register_project_command() -> (r: CommandSpec)
    ensures
        r@ == project_command_spec(),
{
    let mut generate_args: Vec<ArgumentSpec> = Vec::new();
    generate_args.push(make_argument(OptionKind::String, "name", "생성할 프로젝트 이름", true));
    let mut rename_args: Vec<ArgumentSpec> = Vec::new();
    rename_args.push(make_argument(OptionKind::String, "new_name", "변경할 새 프로젝트 이름", true));
    let generate = make_subcommand("generate", "새 프로젝트를 생성합니다.", generate_args);
    let rename = make_subcommand("rename", "프로젝트 이름을 변경합니다.", rename_args);
    let delete = make_subcommand("delete", "프로젝트를 완전히 삭제합니다.", Vec::new());
    let mut options: Vec<OptionSpec> = Vec::new();
    options.push(generate);
    options.push(rename);
    options.push(delete);
    let r = CommandSpec {
        name: "project".to_owned(),
        description: "프로젝트 관련 명령어".to_owned(),
        dm_permission: false,
        default_member_permissions: Some(PermissionSet { view_channel: false, send_messages: false, manage_channels: true }),
        options,
    };
    assert(r@.options[0].arguments =~= project_command_spec().options[0].arguments);
    assert(r@.options[1].arguments =~= project_command_spec().options[1].arguments);
    assert(r@.options[2].arguments =~= Seq::<ArgumentSpecView>::empty());
    assert(r@.options =~= project_command_spec().options);
    r
}

} // verus!
