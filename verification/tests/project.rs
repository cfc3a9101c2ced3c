use project_bot::category::{project_key_of_category, project_of_category};
use project_bot::cache::{BotCache, CacheCommand, MemberRecord, PmRecord, ProjectRecord};
use project_bot::commands::layout::{ChannelKind, OverwriteTarget};
use project_bot::commands::project::{
    channels_to_sweep, creator_display_name, project_start, project_step, recorded_pm_display_name,
    register_project_command, ChannelRecord, ProjectAction, ProjectEvent, ProjectRequest, ProjectState,
};
use project_bot::permissions::RoleRecord;

fn cache() -> BotCache {
    BotCache {
        all_members: vec![
            MemberRecord { user_id: 10, display_name: "Kim".to_string() },
            MemberRecord { user_id: 11, display_name: "Lee".to_string() },
        ],
        project_mapping: vec![ProjectRecord { name: "Alpha".to_string(), member_ids: vec![10, 11] }],
        project_pms: vec![PmRecord { project: "Alpha".to_string(), pm_id: 10 }],
    }
}

fn request(user: u64, sub: &str, arg: &str) -> ProjectRequest {
    ProjectRequest {
        user_id: user,
        user_name: "account".to_string(),
        user_global_name: Some("Global".to_string()),
        member_nick: None,
        member_role_ids: Some(vec![]),
        channel_id: 500,
        guild_id: Some(1),
        subcommand: Some(sub.to_string()),
        name_arg: arg.to_string(),
    }
}

fn step(c: &BotCache, req: &ProjectRequest, s: ProjectState, e: ProjectEvent) -> (ProjectState, ProjectAction) {
    project_step(c, req, s, e)
}

fn begin(c: &BotCache, req: &ProjectRequest) -> (ProjectState, ProjectAction) {
    let (s, a) = project_start();
    assert!(matches!(a, ProjectAction::Defer));
    step(c, req, s, ProjectEvent::Acknowledged)
}

fn reply_text(a: &ProjectAction) -> String {
    match a {
        ProjectAction::Reply { text } => text.clone(),
        _ => panic!("expected a reply"),
    }
}

#[test]
fn generate_sets_up_the_project() {
    let c = cache();
    let req = request(10, "generate", "Beta");
    let (s, a) = begin(&c, &req);
    assert_eq!(reply_text(&a), "🏗️ 'Beta' 프로젝트 생성을 시작합니다. 세팅 중...");
    let (s, a) = step(&c, &req, s, ProjectEvent::Acknowledged);
    assert!(matches!(a, ProjectAction::FetchCurrentUser));
    let (s, a) = step(&c, &req, s, ProjectEvent::CurrentUser { result: Ok(77) });
    match &a {
        ProjectAction::CreateRole { guild_id, name } => {
            assert_eq!(*guild_id, 1);
            assert_eq!(name, "Beta");
        }
        _ => panic!("expected a role creation"),
    }
    let (s, a) = step(&c, &req, s, ProjectEvent::RoleCreated { result: Ok(300) });
    assert!(matches!(a, ProjectAction::GrantRole { guild_id: 1, user_id: 10, role_id: 300 }));
    let (s, a) = step(&c, &req, s, ProjectEvent::Acknowledged);
    match &a {
        ProjectAction::CreateChannel { plan, .. } => {
            assert_eq!(plan.name, "Beta(PM: Kim)");
            assert_eq!(project_of_category(&plan.name), "Beta");
            assert_eq!(project_key_of_category(&plan.name), "Beta");
            assert!(matches!(plan.kind, ChannelKind::Category));
            let ows = plan.overwrites.as_ref().unwrap();
            assert_eq!(ows.len(), 3);
            assert!(matches!(ows[0].target, OverwriteTarget::Role(1)));
            assert!(ows[0].deny.view_channel && !ows[0].allow.view_channel);
            assert!(matches!(ows[1].target, OverwriteTarget::Role(300)));
            assert!(ows[1].allow.view_channel && ows[1].allow.send_messages);
            assert!(matches!(ows[2].target, OverwriteTarget::Member(77)));
            assert!(ows[2].allow.manage_channels);
        }
        _ => panic!("expected the category"),
    }
    let (mut s, mut a) = step(&c, &req, s, ProjectEvent::CategoryCreated { result: Ok(900) });
    let expected = ["📜information", "🤖bot", "🌐dev", "🚩issue", "✅progress", "📢notice", "🎡random", "🖥️github"];
    for (i, name) in expected.iter().enumerate() {
        match &a {
            ProjectAction::CreateChannel { plan, .. } => {
                assert_eq!(plan.name, *name);
                assert!(matches!(plan.kind, ChannelKind::Text));
                assert_eq!(plan.parent_id, Some(900));
                match i {
                    0 => {
                        let ows = plan.overwrites.as_ref().unwrap();
                        assert_eq!(ows.len(), 4);
                        assert!(matches!(ows[2].target, OverwriteTarget::Member(10)));
                        assert!(ows[1].deny.send_messages);
                    }
                    7 => assert_eq!(plan.overwrites.as_ref().unwrap().len(), 3),
                    _ => assert!(plan.overwrites.is_none()),
                }
            }
            _ => panic!("expected a text channel"),
        }
        let (s2, a2) = step(&c, &req, s, ProjectEvent::Acknowledged);
        assert!(matches!(a2, ProjectAction::Sleep { millis: 100 }));
        let (s3, a3) = step(&c, &req, s2, ProjectEvent::Acknowledged);
        s = s3;
        a = a3;
    }
    match &a {
        ProjectAction::CreateChannel { plan, .. } => {
            assert_eq!(plan.name, "🎙️ voice chat");
            assert!(matches!(plan.kind, ChannelKind::Voice));
        }
        _ => panic!("expected the voice channel"),
    }
    let (s, a) = step(&c, &req, s, ProjectEvent::Acknowledged);
    assert_eq!(reply_text(&a), "🚀 <@10> 님, 프로젝트 서버 세팅이 완료되었습니다!");
    let (s, a) = step(&c, &req, s, ProjectEvent::Acknowledged);
    assert!(matches!(a, ProjectAction::Notify { command: CacheCommand::RefreshAll }));
    let (_, a) = step(&c, &req, s, ProjectEvent::Acknowledged);
    assert!(matches!(a, ProjectAction::Finish));
}

#[test]
fn generate_for_an_unknown_creator_updates_the_cache_first() {
    let c = cache();
    let mut req = request(42, "generate", "Beta");
    req.member_nick = Some("Nicky".to_string());
    let (s, _) = begin(&c, &req);
    let (s, _) = step(&c, &req, s, ProjectEvent::Acknowledged);
    let (s, _) = step(&c, &req, s, ProjectEvent::CurrentUser { result: Ok(77) });
    let (s, _) = step(&c, &req, s, ProjectEvent::RoleCreated { result: Ok(300) });
    let (s, a) = step(&c, &req, s, ProjectEvent::Acknowledged);
    match a {
        ProjectAction::Notify { command: CacheCommand::UpdateSingleMember { user_id, display_name } } => {
            assert_eq!(user_id, 42);
            assert_eq!(display_name, "account");
        }
        _ => panic!("expected a cache update"),
    }
    let (_, a) = step(&c, &req, s, ProjectEvent::Acknowledged);
    match a {
        ProjectAction::CreateChannel { plan, .. } => assert_eq!(plan.name, "Beta(PM: Nicky)"),
        _ => panic!("expected the category"),
    }
}

#[test]
fn generate_failures() {
    let c = cache();
    let req = request(10, "generate", "Beta");
    let (s, _) = begin(&c, &req);
    let (s, _) = step(&c, &req, s, ProjectEvent::Acknowledged);
    let (_, a) = step(&c, &req, s, ProjectEvent::CurrentUser { result: Err("Timeout".to_string()) });
    assert_eq!(reply_text(&a), "❌ 봇 정보를 가져오지 못했습니다: Timeout");

    let (s, _) = begin(&c, &req);
    let (s, _) = step(&c, &req, s, ProjectEvent::Acknowledged);
    let (s, _) = step(&c, &req, s, ProjectEvent::CurrentUser { result: Ok(77) });
    let (_, a) = step(&c, &req, s, ProjectEvent::RoleCreated { result: Err("Denied".to_string()) });
    assert_eq!(reply_text(&a), "❌ 역할 생성 실패: Denied");

    let (s, _) = begin(&c, &req);
    let (s, _) = step(&c, &req, s, ProjectEvent::Acknowledged);
    let (s, _) = step(&c, &req, s, ProjectEvent::CurrentUser { result: Ok(77) });
    let (s, _) = step(&c, &req, s, ProjectEvent::RoleCreated { result: Ok(300) });
    let (s, _) = step(&c, &req, s, ProjectEvent::Acknowledged);
    let (s, a) = step(&c, &req, s, ProjectEvent::CategoryCreated { result: Err("Full".to_string()) });
    assert_eq!(reply_text(&a), "❌ 카테고리 생성 실패: Full");
    let (_, a) = step(&c, &req, s, ProjectEvent::Acknowledged);
    assert!(matches!(a, ProjectAction::Notify { command: CacheCommand::RefreshAll }));
}

#[test]
fn generate_refuses_bad_names() {
    let c = cache();
    let (_, a) = begin(&c, &request(10, "generate", ""));
    assert_eq!(reply_text(&a), "⚠️ 생성할 프로젝트 이름을 제대로 입력해주세요.");
    let (_, a) = begin(&c, &request(10, "generate", "Alpha"));
    assert_eq!(reply_text(&a), "❌ 이미 'Alpha' 이름의 프로젝트가 존재합니다.");
}

#[test]
fn start_checks() {
    let c = cache();
    let mut req = request(10, "generate", "Beta");
    req.guild_id = None;
    let (_, a) = begin(&c, &req);
    assert_eq!(reply_text(&a), "❌ 이 명령어는 서버 안에서만 사용 가능합니다.");
    let mut req = request(10, "generate", "Beta");
    req.subcommand = None;
    let (_, a) = begin(&c, &req);
    assert_eq!(reply_text(&a), "❌ 올바른 하위 명령어를 선택해주세요.");
    let (_, a) = begin(&c, &request(10, "archive", "Beta"));
    assert!(matches!(a, ProjectAction::Finish));
}

fn admin_roles() -> Vec<RoleRecord> {
    vec![
        RoleRecord { id: 71, name: "admins".to_string(), permissions: 8 },
        RoleRecord { id: 72, name: "alpha".to_string(), permissions: 0 },
    ]
}

#[test]
fn rename_renames_category_and_role() {
    let c = cache();
    let req = request(10, "rename", "Gamma");
    let (s, a) = begin(&c, &req);
    assert!(matches!(a, ProjectAction::FetchChannel { channel_id: 500 }));
    let (s, a) = step(&c, &req, s, ProjectEvent::Channel { in_guild: true, parent_id: Some(900) });
    assert!(matches!(a, ProjectAction::FetchCategory { category_id: 900 }));
    let (s, a) = step(&c, &req, s, ProjectEvent::Category { title: Some("Alpha(PM: Kim)".to_string()) });
    match &a {
        ProjectAction::RenameChannel { channel_id, name } => {
            assert_eq!(*channel_id, 900);
            assert_eq!(name, "Gamma(PM: Kim)");
            assert_eq!(project_of_category(name), "Gamma");
        }
        _ => panic!("expected a rename"),
    }
    let (s, a) = step(&c, &req, s, ProjectEvent::ChannelRenamed { error: None });
    assert!(matches!(a, ProjectAction::FetchRoles { guild_id: 1 }));
    let (s, a) = step(&c, &req, s, ProjectEvent::Roles { listed: Some(admin_roles()) });
    match &a {
        ProjectAction::RenameRole { role_id, name, .. } => {
            assert_eq!(*role_id, 72);
            assert_eq!(name, "Gamma");
        }
        _ => panic!("expected a role rename"),
    }
    let (s, a) = step(&c, &req, s, ProjectEvent::RoleRenamed { ok: true });
    assert_eq!(reply_text(&a), "📝 프로젝트 카테고리와 역할 이름이 모두 'Gamma'으로 변경되었습니다.");
    let (_, a) = step(&c, &req, s, ProjectEvent::Acknowledged);
    assert!(matches!(a, ProjectAction::Notify { command: CacheCommand::RefreshAll }));
}

#[test]
fn rename_edge_cases() {
    let c = cache();
    let (_, a) = begin(&c, &request(10, "rename", ""));
    assert_eq!(reply_text(&a), "⚠️ 변경할 새 이름을 입력해주세요.");

    let req = request(10, "rename", "Alpha");
    let (s, _) = begin(&c, &req);
    let (_, a) = step(&c, &req, s, ProjectEvent::Channel { in_guild: true, parent_id: Some(900) });
    assert_eq!(reply_text(&a), "❌ 이미 'Alpha' 이름의 프로젝트가 존재합니다.");

    let req = request(10, "rename", "Gamma");
    let (s, _) = begin(&c, &req);
    let (_, a) = step(&c, &req, s, ProjectEvent::Channel { in_guild: true, parent_id: None });
    assert_eq!(reply_text(&a), "❌ 이 명령어는 프로젝트 카테고리 내부 채널에서 실행해야 합니다.");

    let (s, _) = begin(&c, &req);
    let (s, _) = step(&c, &req, s, ProjectEvent::Channel { in_guild: true, parent_id: Some(900) });
    let (s, a) = step(&c, &req, s, ProjectEvent::Category { title: None });
    match &a {
        ProjectAction::RenameChannel { name, .. } => assert_eq!(name, "Gamma(PM: Unknown PM)"),
        _ => panic!("expected a rename"),
    }
    let (s, _) = step(&c, &req, s, ProjectEvent::ChannelRenamed { error: None });
    let (_, a) = step(&c, &req, s, ProjectEvent::Roles { listed: Some(admin_roles()) });
    assert_eq!(reply_text(&a), "📝 프로젝트 이름은 'Gamma'으로 변경되었으나, 동명의 기존 역할을 찾지 못했습니다.");

    let (s, _) = begin(&c, &req);
    let (s, _) = step(&c, &req, s, ProjectEvent::Channel { in_guild: true, parent_id: Some(900) });
    let (s, _) = step(&c, &req, s, ProjectEvent::Category { title: Some("Alpha(PM: Kim)".to_string()) });
    let (_, a) = step(&c, &req, s, ProjectEvent::ChannelRenamed { error: Some("Missing".to_string()) });
    assert_eq!(reply_text(&a), "❌ 이름 변경 실패: Missing");
}

#[test]
fn delete_sweeps_the_category() {
    let c = cache();
    let mut req = request(20, "delete", "");
    req.member_role_ids = Some(vec![71]);
    let (s, a) = begin(&c, &req);
    assert!(matches!(a, ProjectAction::FetchGuild { guild_id: 1 }));
    let (s, a) = step(&c, &req, s, ProjectEvent::Guild { owner_id: 2, roles: admin_roles() });
    assert!(matches!(a, ProjectAction::FetchChannel { channel_id: 500 }));
    let (s, _) = step(&c, &req, s, ProjectEvent::Channel { in_guild: true, parent_id: Some(900) });
    let (s, a) = step(&c, &req, s, ProjectEvent::Category { title: Some("Alpha (PM:Kim)".to_string()) });
    assert_eq!(reply_text(&a), "🧹 프로젝트 채널들과 역할을 완전히 삭제합니다...");
    let (s, a) = step(&c, &req, s, ProjectEvent::Acknowledged);
    assert!(matches!(a, ProjectAction::ListChannels { guild_id: 1 }));
    let listed = vec![
        ChannelRecord { id: 501, parent_id: Some(900) },
        ChannelRecord { id: 500, parent_id: Some(900) },
        ChannelRecord { id: 600, parent_id: Some(901) },
        ChannelRecord { id: 502, parent_id: Some(900) },
        ChannelRecord { id: 900, parent_id: None },
    ];
    let (mut s, mut a) = step(&c, &req, s, ProjectEvent::Channels { channels: Some(listed) });
    let mut deleted = Vec::new();
    loop {
        match a {
            ProjectAction::DeleteChannel { channel_id } => {
                deleted.push(channel_id);
                let (s2, a2) = step(&c, &req, s, ProjectEvent::Acknowledged);
                s = s2;
                a = a2;
            }
            ProjectAction::Sleep { millis } => {
                assert_eq!(millis, 100);
                let (s2, a2) = step(&c, &req, s, ProjectEvent::Acknowledged);
                s = s2;
                a = a2;
            }
            _ => break,
        }
    }
    assert_eq!(deleted, vec![501, 502, 500, 900]);
    assert!(matches!(a, ProjectAction::FetchRoles { guild_id: 1 }));
    let (s, a) = step(&c, &req, s, ProjectEvent::Roles { listed: Some(admin_roles()) });
    assert!(matches!(a, ProjectAction::DeleteRole { guild_id: 1, role_id: 72 }));
    let (s, a) = step(&c, &req, s, ProjectEvent::Acknowledged);
    assert!(matches!(a, ProjectAction::Sleep { millis: 1000 }));
    let (s, a) = step(&c, &req, s, ProjectEvent::Acknowledged);
    assert!(matches!(a, ProjectAction::Notify { command: CacheCommand::RefreshAll }));
    let (_, a) = step(&c, &req, s, ProjectEvent::Acknowledged);
    assert!(matches!(a, ProjectAction::Finish));
}

#[test]
fn delete_checks() {
    let c = cache();
    let req = request(20, "delete", "");
    let (s, _) = begin(&c, &req);
    let (_, a) = step(&c, &req, s, ProjectEvent::Guild { owner_id: 2, roles: admin_roles() });
    assert_eq!(reply_text(&a), "❌ 이 명령어는 서버 관리자(ADMINISTRATOR) 권한이 필요합니다.");

    let req = request(2, "delete", "");
    let (s, _) = begin(&c, &req);
    let (s, _) = step(&c, &req, s, ProjectEvent::Guild { owner_id: 2, roles: admin_roles() });
    let (_, a) = step(&c, &req, s, ProjectEvent::Channel { in_guild: true, parent_id: None });
    assert_eq!(reply_text(&a), "❌ 삭제할 프로젝트 카테고리 내부의 채널에서 명령어를 입력해주세요.");

    let (s, _) = begin(&c, &req);
    let (s, _) = step(&c, &req, s, ProjectEvent::Guild { owner_id: 2, roles: admin_roles() });
    let (s, _) = step(&c, &req, s, ProjectEvent::Channel { in_guild: true, parent_id: Some(900) });
    let (_, a) = step(&c, &req, s, ProjectEvent::Category { title: Some("Lounge".to_string()) });
    assert_eq!(reply_text(&a), "❌ 프로젝트 카테고리 내부 채널에서 명령어를 입력해주세요.");

    let (s, _) = begin(&c, &req);
    let (s, _) = step(&c, &req, s, ProjectEvent::Guild { owner_id: 2, roles: admin_roles() });
    let (_, a) = step(&c, &req, s, ProjectEvent::Channel { in_guild: false, parent_id: None });
    assert!(matches!(a, ProjectAction::Finish));
}

#[test]
fn delete_without_channel_list_goes_to_the_category() {
    let c = cache();
    let req = request(2, "delete", "");
    let (s, _) = begin(&c, &req);
    let (s, _) = step(&c, &req, s, ProjectEvent::Guild { owner_id: 2, roles: admin_roles() });
    let (s, _) = step(&c, &req, s, ProjectEvent::Channel { in_guild: true, parent_id: Some(900) });
    let (s, _) = step(&c, &req, s, ProjectEvent::Category { title: None });
    let (s, _) = step(&c, &req, s, ProjectEvent::Acknowledged);
    let (s, a) = step(&c, &req, s, ProjectEvent::Channels { channels: None });
    assert!(matches!(a, ProjectAction::DeleteChannel { channel_id: 900 }));
    let (s, _) = step(&c, &req, s, ProjectEvent::Acknowledged);
    let (_, a) = step(&c, &req, s, ProjectEvent::Roles { listed: Some(admin_roles()) });
    assert!(matches!(a, ProjectAction::Sleep { millis: 1000 }));
}

#[test]
fn helpers() {
    let c = cache();
    let req = request(10, "generate", "Beta");
    assert_eq!(creator_display_name(&c, &req), "Kim");
    let other = request(55, "generate", "Beta");
    assert_eq!(creator_display_name(&c, &other), "Global");
    assert_eq!(recorded_pm_display_name(&c, &"Alpha".to_string()), "Kim");
    assert_eq!(recorded_pm_display_name(&c, &"Beta".to_string()), "Unknown PM");
    let listed = vec![
        ChannelRecord { id: 1, parent_id: Some(9) },
        ChannelRecord { id: 2, parent_id: None },
        ChannelRecord { id: 3, parent_id: Some(9) },
    ];
    assert_eq!(channels_to_sweep(&listed, 9, 3), vec![1]);
}

#[test]
fn project_command_definition() {
    let spec = register_project_command();
    assert_eq!(spec.name, "project");
    assert_eq!(spec.description, "프로젝트 관련 명령어");
    let perms = spec.default_member_permissions.unwrap();
    assert!(perms.manage_channels && !perms.view_channel && !perms.send_messages);
    let names: Vec<&str> = spec.options.iter().map(|o| o.name.as_str()).collect();
    assert_eq!(names, vec!["generate", "rename", "delete"]);
    assert_eq!(spec.options[0].arguments[0].name, "name");
    assert_eq!(spec.options[1].arguments[0].name, "new_name");
    assert!(spec.options[1].arguments[0].required);
    assert!(spec.options[2].arguments.is_empty());
}
