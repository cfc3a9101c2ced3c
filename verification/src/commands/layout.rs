use vstd::prelude::*;

verus! {

broadcast use vstd::string::group_string_axioms;

/// The three channel permissions that the project layout sets.
#[derive(Clone, Copy)]
pub struct PermissionSet {
    pub view_channel: bool,
    pub send_messages: bool,
    pub manage_channels: bool,
}

/// Whom a permission overwrite applies to.
#[derive(Clone, Copy)]
pub enum OverwriteTarget {
    Role(u64),
    Member(u64),
}

/// A channel permission overwrite: what it allows and what it denies, for whom.
#[derive(Clone, Copy)]
pub struct Overwrite {
    pub target: OverwriteTarget,
    pub allow: PermissionSet,
    pub deny: PermissionSet,
}

/// The kinds of channel the project layout creates.
#[derive(Clone, Copy)]
pub enum ChannelKind {
    Category,
    Text,
    Voice,
}

/// A channel to create: its name, kind, category, and (when set) its overwrites.
pub struct ChannelPlan {
    pub name: String,
    pub kind: ChannelKind,
    pub parent_id: Option<u64>,
    pub overwrites: Option<Vec<Overwrite>>,
}

/// The mathematical value of a `ChannelPlan`.
pub struct ChannelPlanView {
    pub name: Seq<char>,
    pub kind: ChannelKind,
    pub parent_id: Option<u64>,
    pub overwrites: Option<Seq<Overwrite>>,
}

impl View for ChannelPlan {
    type V = ChannelPlanView;

    open spec fn view(&self) -> ChannelPlanView {
        ChannelPlanView {
            name: self.name@,
            kind: self.kind,
            parent_id: self.parent_id,
            overwrites: match self.overwrites {
                Some(v) => Some(v@),
                None => None,
            },
        }
    }
}

pub open spec fn no_permissions() -> PermissionSet {
    PermissionSet { view_channel: false, send_messages: false, manage_channels: false }
}

pub open spec fn view_only() -> PermissionSet {
    PermissionSet { view_channel: true, send_messages: false, manage_channels: false }
}

pub open spec fn send_only() -> PermissionSet {
    PermissionSet { view_channel: false, send_messages: true, manage_channels: false }
}

pub open spec fn view_and_send() -> PermissionSet {
    PermissionSet { view_channel: true, send_messages: true, manage_channels: false }
}

pub open spec fn view_send_manage() -> PermissionSet {
    PermissionSet { view_channel: true, send_messages: true, manage_channels: true }
}

/// `@everyone` (the role whose id is the server's) may not see the channel.
pub open spec fn deny_everyone(guild_id: u64) -> Overwrite {
    Overwrite { target: OverwriteTarget::Role(guild_id), allow: no_permissions(), deny: view_only() }
}

/// The project's role may see the channel and write in it.
pub open spec fn allow_project_role(role_id: u64) -> Overwrite {
    Overwrite { target: OverwriteTarget::Role(role_id), allow: view_and_send(), deny: no_permissions() }
}

/// The bot may see, write and manage the channel.
pub open spec fn allow_bot(bot_id: u64) -> Overwrite {
    Overwrite { target: OverwriteTarget::Member(bot_id), allow: view_send_manage(), deny: no_permissions() }
}

/// The project's role may see the channel but not write in it.
pub open spec fn readonly_project_role(role_id: u64) -> Overwrite {
    Overwrite { target: OverwriteTarget::Role(role_id), allow: view_only(), deny: send_only() }
}

/// The PM may see the channel and write in it.
pub open spec fn allow_pm(user_id: u64) -> Overwrite {
    Overwrite { target: OverwriteTarget::Member(user_id), allow: view_and_send(), deny: no_permissions() }
}

/// The number of text channels in a project's category.
pub open spec fn text_channel_count() -> nat {
    8
}

/// The name of the `i`-th text channel of a project.
pub open spec fn text_channel_name(i: nat) -> Seq<char> {
    if i == 0 {
        "📜information"@
    } else if i == 1 {
        "🤖bot"@
    } else if i == 2 {
        "🌐dev"@
    } else if i == 3 {
        "🚩issue"@
    } else if i == 4 {
        "✅progress"@
    } else if i == 5 {
        "📢notice"@
    } else if i == 6 {
        "🎡random"@
    } else {
        "🖥️github"@
    }
}

/// The project's category: hidden from everyone but the project's role and the bot.
pub open spec fn category_plan(guild_id: u64, role_id: u64, bot_id: u64, title: Seq<char>) -> ChannelPlanView {
    ChannelPlanView {
        name: title,
        kind: ChannelKind::Category,
        parent_id: None,
        overwrites: Some(seq![deny_everyone(guild_id), allow_project_role(role_id), allow_bot(bot_id)]),
    }
}

/// The `i`-th text channel: the information channel is read-only for the
/// project's role but open to the PM; the github channel is read-only for the
/// project's role; the others follow their category.
pub open spec fn text_channel_plan(i: nat, guild_id: u64, role_id: u64, bot_id: u64, pm_id: u64, category_id: u64) -> ChannelPlanView {
    ChannelPlanView {
        name: text_channel_name(i),
        kind: ChannelKind::Text,
        parent_id: Some(category_id),
        overwrites: if i == 7 {
            Some(seq![deny_everyone(guild_id), readonly_project_role(role_id), allow_bot(bot_id)])
        } else if i == 0 {
            Some(
                seq![
                    deny_everyone(guild_id),
                    readonly_project_role(role_id),
                    allow_pm(pm_id),
                    allow_bot(bot_id),
                ],
            )
        } else {
            None
        },
    }
}

/// The project's voice channel.
pub open spec fn voice_channel_plan(category_id: u64) -> ChannelPlanView {
    ChannelPlanView {
        name: "🎙️ voice chat"@,
        kind: ChannelKind::Voice,
        parent_id: Some(category_id),
        overwrites: None,
    }
}

fn permissions(view_channel: bool, send_messages: bool, manage_channels: bool) -> (r: PermissionSet)
    ensures
        r == (PermissionSet { view_channel, send_messages, manage_channels }),
{
    PermissionSet { view_channel, send_messages, manage_channels }
}

fn overwrite(target: OverwriteTarget, allow: PermissionSet, deny: PermissionSet) -> (r: Overwrite)
    ensures
        r == (Overwrite { target, allow, deny }),
{
    Overwrite { target, allow, deny }
}

/// Builds the plan of a project's category.
pub fn make_category_plan(guild_id: u64, role_id: u64, bot_id: u64, title: String) -> (r: ChannelPlan)
    ensures
        r@ == category_plan(guild_id, role_id, bot_id, title@),
{
    let none = permissions(false, false, false);
    let mut v: Vec<Overwrite> = Vec::new();
    v.push(overwrite(OverwriteTarget::Role(guild_id), none, permissions(true, false, false)));
    v.push(overwrite(OverwriteTarget::Role(role_id), permissions(true, true, false), none));
    v.push(overwrite(OverwriteTarget::Member(bot_id), permissions(true, true, true), none));
    let r = ChannelPlan { name: title, kind: ChannelKind::Category, parent_id: None, overwrites: Some(v) };
    assert(r@.overwrites->0 =~= seq![deny_everyone(guild_id), allow_project_role(role_id), allow_bot(bot_id)]);
    r
}

fn text_channel_name_str(i: usize) -> (r: &'static str)
    requires
        i < 8,
    ensures
        r@ == text_channel_name(i as nat),
{
    if i == 0 {
        "📜information"
    } else if i == 1 {
        "🤖bot"
    } else if i == 2 {
        "🌐dev"
    } else if i == 3 {
        "🚩issue"
    } else if i == 4 {
        "✅progress"
    } else if i == 5 {
        "📢notice"
    } else if i == 6 {
        "🎡random"
    } else {
        "🖥️github"
    }
}

/// Builds the plan of the `i`-th text channel of a project.
pub fn make_text_channel_plan(i: usize, guild_id: u64, role_id: u64, bot_id: u64, pm_id: u64, category_id: u64) -> (r: ChannelPlan)
    requires
        i < 8,
    ensures
        r@ == text_channel_plan(i as nat, guild_id, role_id, bot_id, pm_id, category_id),
{
    let none = permissions(false, false, false);
    let deny = overwrite(OverwriteTarget::Role(guild_id), none, permissions(true, false, false));
    let readonly = overwrite(OverwriteTarget::Role(role_id), permissions(true, false, false), permissions(false, true, false));
    let bot = overwrite(OverwriteTarget::Member(bot_id), permissions(true, true, true), none);
    let overwrites = if i == 7 {
        let mut v: Vec<Overwrite> = Vec::new();
        v.push(deny);
        v.push(readonly);
        v.push(bot);
        assert(v@ =~= seq![deny_everyone(guild_id), readonly_project_role(role_id), allow_bot(bot_id)]);
        Some(v)
    } else if i == 0 {
        let mut v: Vec<Overwrite> = Vec::new();
        v.push(deny);
        v.push(readonly);
        v.push(overwrite(OverwriteTarget::Member(pm_id), permissions(true, true, false), none));
        v.push(bot);
        assert(v@ =~= seq![
            deny_everyone(guild_id),
            readonly_project_role(role_id),
            allow_pm(pm_id),
            allow_bot(bot_id),
        ]);
        Some(v)
    } else {
        None
    };
    ChannelPlan {
        name: text_channel_name_str(i).to_owned(),
        kind: ChannelKind::Text,
        parent_id: Some(category_id),
        overwrites,
    }
}

/// Builds the plan of a project's voice channel.
pub fn make_voice_channel_plan(category_id: u64) -> (r: ChannelPlan)
    ensures
        r@ == voice_channel_plan(category_id),
{
    ChannelPlan { name: "🎙️ voice chat".to_owned(), kind: ChannelKind::Voice, parent_id: Some(category_id), overwrites: None }
}

// ---------------------------------------------------------------------------
// Laws of the project layout
// ---------------------------------------------------------------------------

/// The overwrite list gives the project's role (a role other than
/// `@everyone`) view access without the right to write: every overwrite for it
/// allows viewing, does not allow sending, and denies sending; and there is one.
pub open spec fn role_is_read_only(overwrites: Seq<Overwrite>, guild_id: u64, role_id: u64) -> bool {
    &&& exists|k: int| 0 <= k < overwrites.len() && #[trigger] overwrites[k].target == OverwriteTarget::Role(role_id)
    &&& role_id != guild_id ==> forall|k: int|
        0 <= k < overwrites.len() && #[trigger] overwrites[k].target == OverwriteTarget::Role(role_id) ==> {
            &&& overwrites[k].allow.view_channel
            &&& !overwrites[k].allow.send_messages
            &&& overwrites[k].deny.send_messages
        }
}

/// `@everyone` (the role whose id is the server's) may not see the channel, and
/// the bot may see, write in and manage it.
pub open spec fn hidden_but_bot_managed(overwrites: Seq<Overwrite>, guild_id: u64, bot_id: u64) -> bool {
    &&& exists|k: int|
        0 <= k < overwrites.len() && #[trigger] overwrites[k].target == OverwriteTarget::Role(guild_id)
            && overwrites[k].deny.view_channel && !overwrites[k].allow.view_channel
    &&& exists|k: int|
        0 <= k < overwrites.len() && #[trigger] overwrites[k].target == OverwriteTarget::Member(bot_id)
            && overwrites[k].allow.view_channel && overwrites[k].allow.send_messages
            && overwrites[k].allow.manage_channels
}

/// The eight text channels of a project sit in its category. The information
/// channel (0) and the github channel (7) are hidden from everyone, managed by
/// the bot, and read-only for the project's role; in the information channel
/// the PM may write. The other six set no overwrites, so they follow the
/// category.
pub proof fn lemma_text_channel_permissions(i: nat, guild_id: u64, role_id: u64, bot_id: u64, pm_id: u64, category_id: u64)
    requires
        i < 8,
    ensures
        text_channel_plan(i, guild_id, role_id, bot_id, pm_id, category_id).kind == ChannelKind::Text,
        text_channel_plan(i, guild_id, role_id, bot_id, pm_id, category_id).parent_id == Some(category_id),
        (i == 0 || i == 7) ==> {
            let plan = text_channel_plan(i, guild_id, role_id, bot_id, pm_id, category_id);
            &&& plan.overwrites is Some
            &&& role_is_read_only(plan.overwrites->0, guild_id, role_id)
            &&& hidden_but_bot_managed(plan.overwrites->0, guild_id, bot_id)
        },
        i == 7 ==> text_channel_plan(i, guild_id, role_id, bot_id, pm_id, category_id).overwrites == Some(
            seq![
                Overwrite {
                    target: OverwriteTarget::Role(guild_id),
                    allow: PermissionSet { view_channel: false, send_messages: false, manage_channels: false },
                    deny: PermissionSet { view_channel: true, send_messages: false, manage_channels: false },
                },
                Overwrite {
                    target: OverwriteTarget::Role(role_id),
                    allow: PermissionSet { view_channel: true, send_messages: false, manage_channels: false },
                    deny: PermissionSet { view_channel: false, send_messages: true, manage_channels: false },
                },
                Overwrite {
                    target: OverwriteTarget::Member(bot_id),
                    allow: PermissionSet { view_channel: true, send_messages: true, manage_channels: true },
                    deny: PermissionSet { view_channel: false, send_messages: false, manage_channels: false },
                },
            ],
        ),
        i == 0 ==> {
            let ows = text_channel_plan(i, guild_id, role_id, bot_id, pm_id, category_id).overwrites->0;
            exists|k: int|
                0 <= k < ows.len() && #[trigger] ows[k].target == OverwriteTarget::Member(pm_id)
                    && ows[k].allow.view_channel && ows[k].allow.send_messages
        },
        1 <= i <= 6 ==> text_channel_plan(i, guild_id, role_id, bot_id, pm_id, category_id).overwrites is None,
{
    let plan = text_channel_plan(i, guild_id, role_id, bot_id, pm_id, category_id);
    if i == 0 || i == 7 {
        let ows = plan.overwrites->0;
        assert(ows[1].target == OverwriteTarget::Role(role_id));
        assert(ows[0].target == OverwriteTarget::Role(guild_id));
        if i == 0 {
            assert(ows[3].target == OverwriteTarget::Member(bot_id));
            assert(ows[2].target == OverwriteTarget::Member(pm_id));
        } else {
            assert(ows[2].target == OverwriteTarget::Member(bot_id));
        }
    }
}

/// The category is hidden from everyone; the project's role may see it and
/// write in it; the bot may see, write in and manage it.
pub proof fn lemma_category_permissions(guild_id: u64, role_id: u64, bot_id: u64, title: Seq<char>)
    ensures
        category_plan(guild_id, role_id, bot_id, title).name == title,
        category_plan(guild_id, role_id, bot_id, title).kind == ChannelKind::Category,
        category_plan(guild_id, role_id, bot_id, title).parent_id is None,
        category_plan(guild_id, role_id, bot_id, title).overwrites is Some,
        hidden_but_bot_managed(category_plan(guild_id, role_id, bot_id, title).overwrites->0, guild_id, bot_id),
        ({
            let ows = category_plan(guild_id, role_id, bot_id, title).overwrites->0;
            exists|k: int|
                0 <= k < ows.len() && #[trigger] ows[k].target == OverwriteTarget::Role(role_id)
                    && ows[k].allow.view_channel && ows[k].allow.send_messages
        }),
{
    let ows = category_plan(guild_id, role_id, bot_id, title).overwrites->0;
    assert(ows[0].target == OverwriteTarget::Role(guild_id));
    assert(ows[1].target == OverwriteTarget::Role(role_id));
    assert(ows[2].target == OverwriteTarget::Member(bot_id));
}

/// The eight text channels have eight different names.
pub proof fn lemma_text_channel_names_distinct(i: nat, j: nat)
    requires
        i < 8,
        j < 8,
        i != j,
    ensures
        text_channel_name(i) != text_channel_name(j),
{
    reveal_strlit("📜information");
    reveal_strlit("🤖bot");
    reveal_strlit("🌐dev");
    reveal_strlit("🚩issue");
    reveal_strlit("✅progress");
    reveal_strlit("📢notice");
    reveal_strlit("🎡random");
    reveal_strlit("🖥️github");
    let a = text_channel_name(i);
    let b = text_channel_name(j);
    if a.len() == b.len() {
        assert(a[0] != b[0] || a[1] != b[1]);
    }
}

} // verus!
