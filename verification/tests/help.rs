use project_bot::commands::help::{
    describe_command, describe_command_titled, help_embed, help_start, help_step, register_help_command, CommandInfo, CommandOptionInfo,
    HelpAction, HelpEvent, HelpState,
};

fn option(is_subcommand: bool, name: &str, description: &str) -> CommandOptionInfo {
    CommandOptionInfo { is_subcommand, name: name.to_string(), description: description.to_string() }
}

#[test]
fn command_field_lists_subcommands() {
    let cmd = CommandInfo {
        name: "member".to_string(),
        description: "manage members".to_string(),
        options: vec![option(true, "list", "show"), option(false, "x", "arg"), option(true, "add", "add one")],
    };
    let f = describe_command(&cmd);
    assert_eq!(f.name, "/MEMBER");
    assert_eq!(f.value, "manage members\n\n**세부 명령어:**\n└ `/member list` : show\n└ `/member add` : add one\n");
    assert!(!f.inline);
    let plain = CommandInfo { name: "help".to_string(), description: "about".to_string(), options: vec![] };
    let f = describe_command(&plain);
    assert_eq!(f.name, "/HELP");
    assert_eq!(f.value, "about\n");
}

#[test]
fn embed_has_fixed_frame() {
    let e = help_embed(&vec![]);
    assert_eq!(e.title, "🤖 봇 명령어 도움말 (Help Menu)");
    assert_eq!(e.color, 0x5865F2);
    assert_eq!(e.footer, "💡 필요에 따라 하위 명령어를 선택해 사용하세요.");
    assert_eq!(e.fields.len(), 1);
    assert_eq!(e.fields[0].name, "⚠️ 안내");
    assert_eq!(e.fields[0].value, "현재 등록된 슬래시 명령어가 없습니다.");
}

#[test]
fn help_flow() {
    let (s, a) = help_start();
    assert!(matches!(a, HelpAction::Defer));
    let (s, a) = help_step(5, s, HelpEvent::Acknowledged);
    assert!(matches!(a, HelpAction::FetchCommands { guild_id: 5 }));
    let cmds = vec![CommandInfo { name: "help".to_string(), description: "about".to_string(), options: vec![] }];
    let (s, a) = help_step(5, s, HelpEvent::Commands { listed: Some(cmds) });
    match a {
        HelpAction::ReplyEmbed { embed } => assert_eq!(embed.fields[0].name, "/HELP"),
        _ => panic!("expected the embed"),
    }
    assert!(matches!(s, HelpState::Closing));
    let (s, a) = help_start();
    let _ = a;
    let (s, _) = help_step(5, s, HelpEvent::Acknowledged);
    let (_, a) = help_step(5, s, HelpEvent::Commands { listed: None });
    match a {
        HelpAction::Reply { text } => assert_eq!(text, "❌ 명령어 목록을 불러오는 중 오류가 발생했습니다."),
        _ => panic!("expected the error text"),
    }
}

#[test]
fn help_command_definition() {
    let spec = register_help_command();
    assert_eq!(spec.name, "help");
    assert_eq!(spec.description, "봇의 모든 명령어와 사용법을 안내합니다.");
    assert!(!spec.dm_permission);
    assert!(spec.options.is_empty());
}

#[test]
fn titled_field_uses_the_given_title() {
    let cmd = CommandInfo { name: "member".to_string(), description: "d".to_string(), options: vec![] };
    let f = describe_command_titled(&cmd, "MEMBERS".to_string());
    assert_eq!(f.name, "/MEMBERS");
    assert_eq!(f.value, "d\n");
}
