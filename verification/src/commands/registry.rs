use vstd::prelude::*;
use vstd::string::*;
use crate::commands::layout::PermissionSet;

verus! {

broadcast use vstd::string::group_string_axioms;

/// The kinds of command option the bot registers.
#[derive(Clone, Copy)]
pub enum OptionKind {
    SubCommand,
    String,
    User,
}

/// An argument of a subcommand.
pub struct ArgumentSpec {
    pub kind: OptionKind,
    pub name: String,
    pub description: String,
    pub required: bool,
}

/// A subcommand of a command, with its arguments.
pub struct OptionSpec {
    pub kind: OptionKind,
    pub name: String,
    pub description: String,
    pub arguments: Vec<ArgumentSpec>,
}

/// A slash command to register: its name, description, whether it may be used
/// in direct messages, the permissions a member needs by default, and its
/// subcommands.
pub struct CommandSpec {
    pub name: String,
    pub description: String,
    pub dm_permission: bool,
    pub default_member_permissions: Option<PermissionSet>,
    pub options: Vec<OptionSpec>,
}

/// The mathematical value of an `ArgumentSpec`.
pub struct ArgumentSpecView {
    pub kind: OptionKind,
    pub name: Seq<char>,
    pub description: Seq<char>,
    pub required: bool,
}

/// The mathematical value of an `OptionSpec`.
pub struct OptionSpecView {
    pub kind: OptionKind,
    pub name: Seq<char>,
    pub description: Seq<char>,
    pub arguments: Seq<ArgumentSpecView>,
}

/// The mathematical value of a `CommandSpec`.
pub struct CommandSpecView {
    pub name: Seq<char>,
    pub description: Seq<char>,
    pub dm_permission: bool,
    pub default_member_permissions: Option<PermissionSet>,
    pub options: Seq<OptionSpecView>,
}

impl View for ArgumentSpec {
    type V = ArgumentSpecView;

    open spec fn view(&self) -> ArgumentSpecView {
        ArgumentSpecView { kind: self.kind, name: self.name@, description: self.description@, required: self.required }
    }
}

impl View for OptionSpec {
    type V = OptionSpecView;

    open spec fn view(&self) -> OptionSpecView {
        OptionSpecView {
            kind: self.kind,
            name: self.name@,
            description: self.description@,
            arguments: self.arguments@.map_values(|a: ArgumentSpec| a@),
        }
    }
}

impl View for CommandSpec {
    type V = CommandSpecView;

    open spec fn view(&self) -> CommandSpecView {
        CommandSpecView {
            name: self.name@,
            description: self.description@,
            dm_permission: self.dm_permission,
            default_member_permissions: self.default_member_permissions,
            options: self.options@.map_values(|o: OptionSpec| o@),
        }
    }
}

pub open spec fn argument(kind: OptionKind, name: Seq<char>, description: Seq<char>, required: bool) -> ArgumentSpecView {
    ArgumentSpecView { kind, name, description, required }
}

pub open spec fn subcommand(name: Seq<char>, description: Seq<char>, arguments: Seq<ArgumentSpecView>) -> OptionSpecView {
    OptionSpecView { kind: OptionKind::SubCommand, name, description, arguments }
}

/// `/help`: no subcommands; not usable in direct messages.
pub open spec fn help_command_spec() -> CommandSpecView {
    CommandSpecView {
        name: "help"@,
        description: "봇의 모든 명령어와 사용법을 안내합니다."@,
        dm_permission: false,
        default_member_permissions: None,
        options: Seq::empty(),
    }
}

/// `/member list`, `/member add user1 [user2] [user3]` and `/member remove user1 [user2] [user3]`.
pub open spec fn member_command_spec() -> CommandSpecView {
    CommandSpecView {
        name: "member"@,
        description: "프로젝트 멤버를 관리하는 명령어입니다."@,
        dm_permission: false,
        default_member_permissions: None,
        options: seq![
            subcommand("list"@, "현재 프로젝트에 참여 중인 인원 목록을 확인합니다."@, Seq::empty()),
            subcommand(
                "add"@,
                "프로젝트에 새 멤버를 추가하고 역할을 부여합니다."@,
                seq![
                    argument(OptionKind::User, "user1"@, "추가할 첫 번째 유저"@, true),
                    argument(OptionKind::User, "user2"@, "추가할 두 번째 유저 (선택)"@, false),
                    argument(OptionKind::User, "user3"@, "추가할 세 번째 유저 (선택)"@, false),
                ],
            ),
            subcommand(
                "remove"@,
                "프로젝트에서 멤버를 내보내고 역할을 회수합니다."@,
                seq![
                    argument(OptionKind::User, "user1"@, "내보낼 첫 번째 유저"@, true),
                    argument(OptionKind::User, "user2"@, "내보낼 두 번째 유저 (선택)"@, false),
                    argument(OptionKind::User, "user3"@, "내보낼 세 번째 유저 (선택)"@, false),
                ],
            ),
        ],
    }
}

/// `/project generate name`, `/project rename new_name` and `/project delete`;
/// by default only members who may manage channels can use it.
pub open spec fn project_command_spec() -> CommandSpecView {
    CommandSpecView {
        name: "project"@,
        description: "프로젝트 관련 명령어"@,
        dm_permission: false,
        default_member_permissions: Some(
            PermissionSet { view_channel: false, send_messages: false, manage_channels: true },
        ),
        options: seq![
            subcommand(
                "generate"@,
                "새 프로젝트를 생성합니다."@,
                seq![argument(OptionKind::String, "name"@, "생성할 프로젝트 이름"@, true)],
            ),
            subcommand(
                "rename"@,
                "프로젝트 이름을 변경합니다."@,
                seq![argument(OptionKind::String, "new_name"@, "변경할 새 프로젝트 이름"@, true)],
            ),
            subcommand("delete"@, "프로젝트를 완전히 삭제합니다."@, Seq::empty()),
        ],
    }
}

pub(crate) fn make_argument(kind: OptionKind, name: &str, description: &str, required: bool) -> (r: ArgumentSpec)
    ensures
        r@ == argument(kind, name@, description@, required),
{
    ArgumentSpec { kind, name: name.to_owned(), description: description.to_owned(), required }
}

pub(crate) fn make_subcommand(name: &str, description: &str, arguments: Vec<ArgumentSpec>) -> (r: OptionSpec)
    ensures
        r@ == subcommand(name@, description@, arguments@.map_values(|a: ArgumentSpec| a@)),
{
    OptionSpec { kind: OptionKind::SubCommand, name: name.to_owned(), description: description.to_owned(), arguments }
}




} // verus!
