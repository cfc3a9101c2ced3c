use vstd::prelude::*;
use vstd::string::*;
use crate::text::{to_uppercase, uppercase};

use crate::commands::registry::{help_command_spec, CommandSpec, OptionSpecView};
verus! {

broadcast use vstd::string::group_string_axioms;

/// An option of a registered command, as the help lists it.
pub struct CommandOptionInfo {
    /// Whether the option is a subcommand.
    pub is_subcommand: bool,
    pub name: String,
    pub description: String,
}

/// A command registered on the server.
pub struct CommandInfo {
    pub name: String,
    pub description: String,
    pub options: Vec<CommandOptionInfo>,
}

/// A field of the help embed.
pub struct EmbedField {
    pub name: String,
    pub value: String,
    pub inline: bool,
}

/// The mathematical value of an `EmbedField`.
pub struct EmbedFieldView {
    pub name: Seq<char>,
    pub value: Seq<char>,
    pub inline: bool,
}

impl View for EmbedField {
    type V = EmbedFieldView;

    open spec fn view(&self) -> EmbedFieldView {
        EmbedFieldView { name: self.name@, value: self.value@, inline: self.inline }
    }
}

/// The help embed: title, description, colour, footer and one field per command.
pub struct HelpEmbed {
    pub title: String,
    pub description: String,
    pub color: u32,
    pub footer: String,
    pub fields: Vec<EmbedField>,
}

pub open spec fn help_title() -> Seq<char> {
    "🤖 봇 명령어 도움말 (Help Menu)"@
}

pub open spec fn help_description() -> Seq<char> {
    "이 서버에서 사용할 수 있는 전체 슬래시 명령어 목록입니다.\n각 명령어를 클릭하면 즉시 입력 창이 활성화됩니다.\n"@
}

pub open spec fn help_footer() -> Seq<char> {
    "💡 필요에 따라 하위 명령어를 선택해 사용하세요."@
}

/// Discord's blurple.
pub open spec fn help_color() -> u32 {
    0x5865F2
}

pub open spec fn msg_help_failed() -> Seq<char> {
    "❌ 명령어 목록을 불러오는 중 오류가 발생했습니다."@
}

/// The one field shown when no command is registered.
pub open spec fn empty_help_field() -> EmbedFieldView {
    EmbedFieldView { name: "⚠️ 안내"@, value: "현재 등록된 슬래시 명령어가 없습니다."@, inline: false }
}

/// The line that names a subcommand: ``/{command} {sub}` : {description}`.
pub open spec fn subcommand_line(command: Seq<char>, option: CommandOptionInfo) -> Seq<char> {
    "`/"@ + command + " "@ + option.name@ + "` : "@ + option.description@
}

/// The lines of a command's subcommands, in order, each ending in a newline.
pub open spec fn subcommand_lines(command: Seq<char>, options: Seq<CommandOptionInfo>) -> Seq<char>
    decreases options.len(),
{
    if options.len() == 0 {
        Seq::empty()
    } else {
        let rest = subcommand_lines(command, options.drop_last());
        if options.last().is_subcommand {
            rest + "└ "@ + subcommand_line(command, options.last()) + "\n"@
        } else {
            rest
        }
    }
}

/// Whether a command has a subcommand.
pub open spec fn has_subcommand(options: Seq<CommandOptionInfo>) -> bool {
    exists|i: int| 0 <= i < options.len() && #[trigger] options[i].is_subcommand
}

/// The field for a command: titled `/` and its name in upper case; its
/// description, then, if it has subcommands, a heading and their lines.
pub open spec fn command_field(cmd: CommandInfo) -> EmbedFieldView {
    EmbedFieldView {
        name: "/"@ + uppercase(cmd.name@),
        value: cmd.description@ + "\n"@ + if has_subcommand(cmd.options@) {
            "\n**세부 명령어:**\n"@ + subcommand_lines(cmd.name@, cmd.options@)
        } else {
            Seq::empty()
        },
        inline: false,
    }
}

/// The fields of the help embed for the registered commands.
pub open spec fn help_fields(commands: Seq<CommandInfo>) -> Seq<EmbedFieldView> {
    if commands.len() == 0 {
        seq![empty_help_field()]
    } else {
        commands.map_values(|cmd: CommandInfo| command_field(cmd))
    }
}

/// The help embed is built as `help_fields` says, with the fixed title,
/// description, colour and footer.
pub open spec fn is_help_embed(embed: HelpEmbed, commands: Seq<CommandInfo>) -> bool {
    &&& embed.title@ == help_title()
    &&& embed.description@ == help_description()
    &&& embed.color == help_color()
    &&& embed.footer@ == help_footer()
    &&& embed.fields@.map_values(|f: EmbedField| f@) == help_fields(commands)
}

/// The field for a command whose upper-cased name is `upper`.
pub open spec fn command_field_titled(cmd: CommandInfo, upper: Seq<char>) -> EmbedFieldView {
    EmbedFieldView { name: "/"@ + upper, value: command_field(cmd).value, inline: false }
}

/// Builds the field that describes one command.
pub fn describe_command(cmd: &CommandInfo) -> (r: EmbedField)
    ensures
        r@ == command_field(*cmd),
{
    let upper = to_uppercase(cmd.name.as_str());
    describe_command_titled(cmd, upper)
}

/// Builds the field that describes one command, given its name in upper case.
pub fn describe_command_titled(cmd: &CommandInfo, upper: String) -> (r: EmbedField)
    ensures
        r@ == command_field_titled(*cmd, upper@),
{
    let mut lines = String::new();
    let mut any = false;
    let n = cmd.options.len();
    let mut i: usize = 0;
    while i < n
        invariant
            n == cmd.options@.len(),
            i <= n,
            lines@ == subcommand_lines(cmd.name@, cmd.options@.take(i as int)),
            any == has_subcommand(cmd.options@.take(i as int)),
        decreases n - i,
    {
        assert(cmd.options@.take(i + 1).drop_last() =~= cmd.options@.take(i as int));
        let opt = &cmd.options[i];
        if opt.is_subcommand {
            let ghost before = lines@;
            lines.append("└ ");
            lines.append("`/");
            lines.append(cmd.name.as_str());
            lines.append(" ");
            lines.append(opt.name.as_str());
            lines.append("` : ");
            lines.append(opt.description.as_str());
            lines.append("\n");
            assert(lines@ =~= before + "└ "@ + subcommand_line(cmd.name@, *opt) + "\n"@);
            any = true;
            assert(cmd.options@.take(i + 1)[i as int].is_subcommand);
        } else {
            assert forall|j: int| 0 <= j < i + 1 && #[trigger] cmd.options@.take(i + 1)[j].is_subcommand implies j < i by {}
        }
        i = i + 1;
    }
    assert(cmd.options@.take(n as int) =~= cmd.options@);
    let mut value = cmd.description.clone();
    value.append("\n");
    let ghost head = value@;
    if any {
        value.append("\n**세부 명령어:**\n");
        value.append(lines.as_str());
        assert(value@ =~= head + ("\n**세부 명령어:**\n"@ + lines@));
    } else {
        assert(value@ =~= head + Seq::<char>::empty());
    }
    let mut name = "/".to_owned();
    name.append(upper.as_str());
    EmbedField { name, value, inline: false }
}

/// Builds the help embed for the registered commands.
pub fn help_embed(commands: &Vec<CommandInfo>) -> (r: HelpEmbed)
    ensures
        is_help_embed(r, commands@),
        commands@.len() > 0 ==> r.fields@.len() == commands@.len(),
        commands@.len() > 0 ==> forall|i: int|
            0 <= i < commands@.len() ==> (#[trigger] r.fields@[i])@ == command_field(commands@[i]),
{
    let mut fields: Vec<EmbedField> = Vec::new();
    if commands.len() == 0 {
        fields.push(
            EmbedField { name: "⚠️ 안내".to_owned(), value: "현재 등록된 슬래시 명령어가 없습니다.".to_owned(), inline: false },
        );
        assert(fields@.map_values(|f: EmbedField| f@) =~= help_fields(commands@));
    } else {
        let n = commands.len();
        let mut i: usize = 0;
        while i < n
            invariant
                n == commands@.len(),
                i <= n,
                fields@.len() == i,
                forall|j: int| 0 <= j < i ==> #[trigger] fields@[j]@ == command_field(commands@[j]),
            decreases n - i,
        {
            fields.push(describe_command(&commands[i]));
            i = i + 1;
        }
        assert(fields@.map_values(|f: EmbedField| f@) =~= help_fields(commands@));
    }
    let r = HelpEmbed {
        title: "🤖 봇 명령어 도움말 (Help Menu)".to_owned(),
        description: "이 서버에서 사용할 수 있는 전체 슬래시 명령어 목록입니다.\n각 명령어를 클릭하면 즉시 입력 창이 활성화됩니다.\n".to_owned(),
        color: 0x5865F2,
        footer: "💡 필요에 따라 하위 명령어를 선택해 사용하세요.".to_owned(),
        fields,
    };
    proof {
        lemma_help_one_field_per_command(r, commands@);
    }
    r
}

// ---------------------------------------------------------------------------
// The `/help` command as a state machine
// ---------------------------------------------------------------------------

/// What the caller is to do next for a `/help` interaction.
pub enum HelpAction {
    Defer,
    /// List the commands registered on the server.
    FetchCommands { guild_id: u64 },
    Reply { text: String },
    ReplyEmbed { embed: HelpEmbed },
    Finish,
}

/// What the caller reports back.
pub enum HelpEvent {
    Acknowledged,
    /// The registered commands, or `None` when they could not be listed.
    Commands { listed: Option<Vec<CommandInfo>> },
}

/// Where a `/help` interaction stands.
pub enum HelpState {
    Starting,
    AwaitingCommands,
    Closing,
    Finished,
}

/// The first step of a `/help` interaction: defer the answer.
pub fn help_start() -> (r: (HelpState, HelpAction))
    ensures
        r.0 is Starting,
        r.1 is Defer,
{
    (HelpState::Starting, HelpAction::Defer)
}

/// Moves a `/help` interaction on by one event: list the commands, then answer
/// with the help embed, or with an error text when they could not be listed.
pub fn help_step(guild_id: u64, s: HelpState, e: HelpEvent) -> (r: (HelpState, HelpAction))
    ensures
        match (s, e) {
            (HelpState::Starting, HelpEvent::Acknowledged) => r.0 is AwaitingCommands && r.1 == (HelpAction::FetchCommands {
                guild_id,
            }),
            (HelpState::AwaitingCommands, HelpEvent::Commands { listed }) => r.0 is Closing && match listed {
                None => r.1 matches HelpAction::Reply { text } && text@ == msg_help_failed(),
                Some(cmds) => r.1 matches HelpAction::ReplyEmbed { embed } && is_help_embed(embed, cmds@),
            },
            _ => r.0 is Finished && r.1 is Finish,
        },
{
    match s {
        HelpState::Starting => match e {
            HelpEvent::Acknowledged => (HelpState::AwaitingCommands, HelpAction::FetchCommands { guild_id }),
            _ => (HelpState::Finished, HelpAction::Finish),
        },
        HelpState::AwaitingCommands => match e {
            HelpEvent::Commands { listed } => match listed {
                None => (HelpState::Closing, HelpAction::Reply { text: "❌ 명령어 목록을 불러오는 중 오류가 발생했습니다.".to_owned() }),
                Some(cmds) => (HelpState::Closing, HelpAction::ReplyEmbed { embed: help_embed(&cmds) }),
            },
            _ => (HelpState::Finished, HelpAction::Finish),
        },
        _ => (HelpState::Finished, HelpAction::Finish),
    }
}

/// The help embed has one field per registered command, in the order listed,
/// each describing that command; only when no command is registered does it
/// hold a single notice instead. Its frame (title, description, colour,
/// footer) is fixed.
pub proof fn lemma_help_one_field_per_command(embed: HelpEmbed, commands: Seq<CommandInfo>)
    requires
        is_help_embed(embed, commands),
    ensures
        commands.len() > 0 ==> embed.fields@.len() == commands.len(),
        commands.len() > 0 ==> forall|i: int|
            0 <= i < commands.len() ==> (#[trigger] embed.fields@[i])@ == command_field(commands[i]),
        commands.len() == 0 ==> embed.fields@.len() == 1 && embed.fields@[0].name@ == "⚠️ 안내"@
            && embed.fields@[0].value@ == "현재 등록된 슬래시 명령어가 없습니다."@ && !embed.fields@[0].inline,
        embed.title@ == "🤖 봇 명령어 도움말 (Help Menu)"@,
        embed.color == 0x5865F2,
{
    let views = embed.fields@.map_values(|f: EmbedField| f@);
    assert(views.len() == embed.fields@.len());
    if commands.len() > 0 {
        assert forall|i: int| 0 <= i < commands.len() implies (#[trigger] embed.fields@[i])@ == command_field(commands[i]) by {
            assert(views[i] == embed.fields@[i]@);
        }
    } else {
        assert(views[0] == embed.fields@[0]@);
    }
}

/// A command's field is titled `/` and its name in upper case and is never
/// inline; its text starts with the command's description and a newline, and
/// goes on (with a heading) exactly when the command has a subcommand.
pub proof fn lemma_command_field_shape(cmd: CommandInfo)
    ensures
        command_field(cmd).name == "/"@ + uppercase(cmd.name@),
        !command_field(cmd).inline,
        command_field(cmd).value.subrange(0, cmd.description@.len() + 1int) == cmd.description@ + "\n"@,
        has_subcommand(cmd.options@) <==> command_field(cmd).value.len() > cmd.description@.len() + 1,
{
    reveal_strlit("\n");
    reveal_strlit("\n**세부 명령어:**\n");
    let head = cmd.description@ + "\n"@;
    let v = command_field(cmd).value;
    assert(v.subrange(0, head.len() as int) =~= head);
}

// ---------------------------------------------------------------------------
// Registration
// ---------------------------------------------------------------------------

/// The definition of `/help`.
pub fn register_help_command() -> (r: CommandSpec)
    ensures
        r@ == help_command_spec(),
{
    let r = CommandSpec {
        name: "help".to_owned(),
        description: "봇의 모든 명령어와 사용법을 안내합니다.".to_owned(),
        dm_permission: false,
        default_member_permissions: None,
        options: Vec::new(),
    };
    assert(r@.options =~= Seq::<OptionSpecView>::empty());
    r
}

} // verus!
