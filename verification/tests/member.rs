use project_bot::cache::{BotCache, CacheCommand, MemberRecord, PmRecord, ProjectRecord};
use project_bot::commands::member::{
    change_report_text, remove_repeats, member_list_is_blocked, member_list_text, member_start, member_step,
    register_member_command, select_role_changes, MemberAction, MemberEvent, MemberRequest, MemberState,
};
use project_bot::commands::registry::OptionKind;
use project_bot::permissions::RoleRecord;

fn cache() -> BotCache {
    BotCache {
        all_members: vec![
            MemberRecord { user_id: 10, display_name: "PM Kim".to_string() },
            MemberRecord { user_id: 11, display_name: "Lee".to_string() },
            MemberRecord { user_id: 12, display_name: "Park".to_string() },
            MemberRecord { user_id: 13, display_name: "Choi".to_string() },
        ],
        project_mapping: vec![ProjectRecord { name: "Alpha".to_string(), member_ids: vec![10, 11, 13] }],
        project_pms: vec![
            PmRecord { project: "Alpha".to_string(), pm_id: 10 },
            PmRecord { project: "Ghost".to_string(), pm_id: 99 },
        ],
    }
}

fn request(user: u64, sub: &str, targets: Vec<u64>) -> MemberRequest {
    MemberRequest {
        user_id: user,
        channel_id: 500,
        guild_id: Some(1),
        member_role_ids: Some(vec![]),
        subcommand: Some(sub.to_string()),
        target_ids: targets,
    }
}

fn roles() -> Vec<RoleRecord> {
    vec![
        RoleRecord { id: 70, name: "Alpha".to_string(), permissions: 0 },
        RoleRecord { id: 71, name: "admins".to_string(), permissions: 8 },
    ]
}

/// Runs the machine up to the category, returning the state and action after it.
fn up_to_category(c: &BotCache, req: &MemberRequest, title: &str) -> (MemberState, MemberAction) {
    let (s, a) = member_start();
    assert!(matches!(a, MemberAction::Defer));
    let (s, a) = member_step(c, req, s, MemberEvent::Acknowledged);
    assert!(matches!(a, MemberAction::FetchChannel { channel_id: 500 }));
    let (s, a) = member_step(c, req, s, MemberEvent::Channel { in_guild: true, parent_id: Some(900) });
    assert!(matches!(a, MemberAction::FetchCategory { category_id: 900 }));
    member_step(c, req, s, MemberEvent::Category { title: title.to_string() })
}

fn reply_text(a: &MemberAction) -> String {
    match a {
        MemberAction::Reply { text } => text.clone(),
        _ => panic!("expected a reply"),
    }
}

#[test]
fn list_names_the_pm_first() {
    let c = cache();
    let req = request(11, "list", vec![]);
    let (s, a) = up_to_category(&c, &req, "Alpha(PM: PM Kim)");
    assert_eq!(reply_text(&a), "📌 **'Alpha' 프로젝트 참여 인원 명단**\n• PM Kim\n• Lee\n• Choi\n");
    let (_, a) = member_step(&c, &req, s, MemberEvent::Acknowledged);
    assert!(matches!(a, MemberAction::Finish));
}

#[test]
fn list_without_pm_answers_so() {
    let c = cache();
    let req = request(11, "list", vec![]);
    let (_, a) = up_to_category(&c, &req, "Beta(PM: x)");
    assert_eq!(reply_text(&a), "❌ 프로젝트 PM을 찾을 수 없습니다. 프로젝트 카테고리에서 명령어를 사용해주세요.");
}

#[test]
fn list_with_unknown_pm_is_blocked() {
    let c = cache();
    let req = request(11, "list", vec![]);
    let event = MemberEvent::Category { title: "Ghost(PM: nobody)".to_string() };
    assert!(member_list_is_blocked(&c, &req, &MemberState::AwaitingCategory, &event));
    let fine = MemberEvent::Category { title: "Alpha(PM: PM Kim)".to_string() };
    assert!(!member_list_is_blocked(&c, &req, &MemberState::AwaitingCategory, &fine));
}

#[test]
fn member_list_text_matches() {
    let c = cache();
    assert_eq!(
        member_list_text(&c, &"Alpha".to_string(), 11),
        "📌 **'Alpha' 프로젝트 참여 인원 명단**\n• Lee\n• PM Kim\n• Choi\n"
    );
}

#[test]
fn channel_checks() {
    let c = cache();
    let req = request(11, "list", vec![]);
    let (s, _) = member_start();
    let (s, _) = member_step(&c, &req, s, MemberEvent::Acknowledged);
    let (_, a) = member_step(&c, &req, s, MemberEvent::Channel { in_guild: false, parent_id: None });
    assert_eq!(reply_text(&a), "❌ 이 명령어는 서버 텍스트 채널에서만 사용 가능합니다.");
    let (s, _) = member_start();
    let (s, _) = member_step(&c, &req, s, MemberEvent::Acknowledged);
    let (_, a) = member_step(&c, &req, s, MemberEvent::Channel { in_guild: true, parent_id: None });
    assert_eq!(reply_text(&a), "❌ 이 명령어는 프로젝트 카테고리 내 채널에서만 사용 가능합니다.");
}

#[test]
fn missing_subcommand() {
    let c = cache();
    let mut req = request(11, "list", vec![]);
    req.subcommand = None;
    let (_, a) = up_to_category(&c, &req, "Alpha(PM: PM Kim)");
    assert_eq!(reply_text(&a), "⚠️ 올바른 하위 명령어를 선택해주세요.");
}

#[test]
fn pm_adds_a_member() {
    let c = cache();
    let req = request(10, "add", vec![12, 12, 11, 99]);
    let (s, a) = up_to_category(&c, &req, "Alpha(PM: PM Kim)");
    assert!(matches!(a, MemberAction::FetchGuild { guild_id: 1 }));
    let (s, a) = member_step(&c, &req, s, MemberEvent::Guild { owner_id: 2, roles: roles() });
    assert!(matches!(a, MemberAction::FetchRoles { guild_id: 1 }));
    let (s, a) = member_step(&c, &req, s, MemberEvent::Roles { listed: Some(roles()) });
    assert!(matches!(a, MemberAction::ChangeRole { add: true, guild_id: 1, user_id: 12, role_id: 70 }));
    let (s, a) = member_step(&c, &req, s, MemberEvent::RoleChanged { ok: true });
    assert_eq!(reply_text(&a), "✅ <@12> 님이 'Alpha' 프로젝트 멤버로 추가되었습니다!");
    let (s, a) = member_step(&c, &req, s, MemberEvent::Acknowledged);
    match a {
        MemberAction::Notify { command: CacheCommand::AddProjectMembers { project_name, user_ids } } => {
            assert_eq!(project_name, "Alpha");
            assert_eq!(user_ids, vec![12]);
        }
        _ => panic!("expected a cache notice"),
    }
    let (s, a) = member_step(&c, &req, s, MemberEvent::Acknowledged);
    assert!(matches!(a, MemberAction::Finish));
    assert!(matches!(s, MemberState::Finished));
}

#[test]
fn admin_removes_members_and_failures_are_left_out() {
    let c = cache();
    let mut req = request(20, "remove", vec![11, 13, 12]);
    req.member_role_ids = Some(vec![71]);
    let (s, _) = up_to_category(&c, &req, "Alpha(PM: PM Kim)");
    let (s, _) = member_step(&c, &req, s, MemberEvent::Guild { owner_id: 2, roles: roles() });
    let (s, a) = member_step(&c, &req, s, MemberEvent::Roles { listed: Some(roles()) });
    assert!(matches!(a, MemberAction::ChangeRole { add: false, user_id: 11, .. }));
    let (s, a) = member_step(&c, &req, s, MemberEvent::RoleChanged { ok: false });
    assert!(matches!(a, MemberAction::ChangeRole { add: false, user_id: 13, .. }));
    let (_, a) = member_step(&c, &req, s, MemberEvent::RoleChanged { ok: true });
    assert_eq!(reply_text(&a), "🗑️ <@13> 님이 'Alpha' 프로젝트 멤버에서 제외되었습니다.");
}

#[test]
fn others_may_not_manage() {
    let c = cache();
    let req = request(11, "add", vec![12]);
    let (s, _) = up_to_category(&c, &req, "Alpha(PM: PM Kim)");
    let (_, a) = member_step(&c, &req, s, MemberEvent::Guild { owner_id: 2, roles: roles() });
    assert_eq!(reply_text(&a), "❌ 이 명령어를 사용할 권한이 없습니다. (PM 혹은 관리자만 가능)");
}

#[test]
fn owner_may_manage() {
    let c = cache();
    let req = request(2, "add", vec![12]);
    let (s, _) = up_to_category(&c, &req, "Alpha(PM: PM Kim)");
    let (_, a) = member_step(&c, &req, s, MemberEvent::Guild { owner_id: 2, roles: roles() });
    assert!(matches!(a, MemberAction::FetchRoles { .. }));
}

#[test]
fn missing_role_self_target_and_nothing_to_do() {
    let c = cache();
    let req = request(10, "add", vec![12]);
    let (s, _) = up_to_category(&c, &req, "Alpha(PM: PM Kim)");
    let (s, _) = member_step(&c, &req, s, MemberEvent::Guild { owner_id: 2, roles: roles() });
    let (_, a) = member_step(&c, &req, s, MemberEvent::Roles { listed: None });
    assert_eq!(reply_text(&a), "❌ 서버에서 'Alpha' 프로젝트에 해당하는 역할을 찾을 수 없습니다.");

    let req = request(10, "add", vec![12, 10]);
    let (s, _) = up_to_category(&c, &req, "Alpha(PM: PM Kim)");
    let (s, _) = member_step(&c, &req, s, MemberEvent::Guild { owner_id: 2, roles: roles() });
    let (_, a) = member_step(&c, &req, s, MemberEvent::Roles { listed: Some(roles()) });
    assert_eq!(reply_text(&a), "❌ 본인을 추가하거나 제거할 수 없습니다.");

    let req = request(10, "add", vec![11, 99]);
    let (s, _) = up_to_category(&c, &req, "Alpha(PM: PM Kim)");
    let (s, _) = member_step(&c, &req, s, MemberEvent::Guild { owner_id: 2, roles: roles() });
    let (_, a) = member_step(&c, &req, s, MemberEvent::Roles { listed: Some(roles()) });
    assert_eq!(reply_text(&a), "❌ 변경된 정보가 없거나 적용할 대상 유저가 없습니다.");
}

#[test]
fn no_guild_or_member_ends_silently() {
    let c = cache();
    let mut req = request(10, "add", vec![12]);
    req.guild_id = None;
    let (_, a) = up_to_category(&c, &req, "Alpha(PM: PM Kim)");
    assert!(matches!(a, MemberAction::Finish));
    let mut req = request(10, "add", vec![12]);
    req.member_role_ids = None;
    let (s, _) = up_to_category(&c, &req, "Alpha(PM: PM Kim)");
    let (_, a) = member_step(&c, &req, s, MemberEvent::Guild { owner_id: 2, roles: roles() });
    assert!(matches!(a, MemberAction::Finish));
}

#[test]
fn unexpected_event_ends() {
    let c = cache();
    let req = request(10, "add", vec![12]);
    let (s, _) = member_start();
    let (s, a) = member_step(&c, &req, s, MemberEvent::RoleChanged { ok: true });
    assert!(matches!(a, MemberAction::Finish));
    assert!(matches!(s, MemberState::Finished));
}

#[test]
fn target_selection() {
    let c = cache();
    assert_eq!(remove_repeats(&vec![1, 1, 2, 1, 1, 3]), vec![1, 2, 3]);
    assert_eq!(remove_repeats(&vec![]), Vec::<u64>::new());
    assert_eq!(select_role_changes(&c, &"Alpha".to_string(), true, &vec![12, 12, 11, 99, 12]), vec![12]);
    assert_eq!(select_role_changes(&c, &"Alpha".to_string(), false, &vec![12, 11, 13]), vec![11, 13]);
    assert_eq!(select_role_changes(&c, &"Beta".to_string(), true, &vec![11]), vec![11]);
}

#[test]
fn report_texts() {
    assert_eq!(
        change_report_text(true, "Alpha", &vec![1, 22]),
        "✅ <@1>, <@22> 님이 'Alpha' 프로젝트 멤버로 추가되었습니다!"
    );
    assert_eq!(change_report_text(false, "Alpha", &vec![5]), "🗑️ <@5> 님이 'Alpha' 프로젝트 멤버에서 제외되었습니다.");
}

#[test]
fn member_command_definition() {
    let spec = register_member_command();
    assert_eq!(spec.name, "member");
    assert!(!spec.dm_permission);
    assert!(spec.default_member_permissions.is_none());
    let names: Vec<&str> = spec.options.iter().map(|o| o.name.as_str()).collect();
    assert_eq!(names, vec!["list", "add", "remove"]);
    assert!(spec.options.iter().all(|o| matches!(o.kind, OptionKind::SubCommand)));
    assert_eq!(spec.options[1].arguments.len(), 3);
    assert!(spec.options[1].arguments[0].required);
    assert!(!spec.options[2].arguments[2].required);
    assert_eq!(spec.options[2].arguments[0].description, "내보낼 첫 번째 유저");
}

#[test]
fn a_user_named_twice_is_changed_once() {
    let c = BotCache {
        all_members: vec![
            MemberRecord { user_id: 1, display_name: "Kim".to_string() },
            MemberRecord { user_id: 2, display_name: "Lee".to_string() },
            MemberRecord { user_id: 3, display_name: "Park".to_string() },
        ],
        project_mapping: vec![ProjectRecord { name: "Alpha".to_string(), member_ids: vec![1] }],
        project_pms: vec![PmRecord { project: "Alpha".to_string(), pm_id: 1 }],
    };
    let req = request(1, "add", vec![2, 3, 2]);
    let (s, _) = up_to_category(&c, &req, "Alpha(PM: Kim)");
    let (s, _) = member_step(&c, &req, s, MemberEvent::Guild { owner_id: 9, roles: roles() });
    let (s, a) = member_step(&c, &req, s, MemberEvent::Roles { listed: Some(roles()) });
    assert!(matches!(a, MemberAction::ChangeRole { add: true, user_id: 2, role_id: 70, .. }));
    let (s, a) = member_step(&c, &req, s, MemberEvent::RoleChanged { ok: true });
    assert!(matches!(a, MemberAction::ChangeRole { add: true, user_id: 3, role_id: 70, .. }));
    let (s, a) = member_step(&c, &req, s, MemberEvent::RoleChanged { ok: true });
    assert_eq!(reply_text(&a), "✅ <@2>, <@3> 님이 'Alpha' 프로젝트 멤버로 추가되었습니다!");
    let (_, a) = member_step(&c, &req, s, MemberEvent::Acknowledged);
    match a {
        MemberAction::Notify { command: CacheCommand::AddProjectMembers { user_ids, .. } } => assert_eq!(user_ids, vec![2, 3]),
        _ => panic!("expected a cache notice"),
    }
}

#[test]
fn a_repeated_member_record_is_listed_once() {
    let mut c = cache();
    c.all_members.push(MemberRecord { user_id: 11, display_name: "Lee again".to_string() });
    assert_eq!(
        member_list_text(&c, &"Alpha".to_string(), 10),
        "📌 **'Alpha' 프로젝트 참여 인원 명단**\n• PM Kim\n• Lee\n• Choi\n"
    );
}
