use project_bot::cache::{member_update_notice, BotCache, CacheCommand, MemberRecord, PmRecord, ProjectRecord};

fn sample() -> BotCache {
    BotCache {
        all_members: vec![
            MemberRecord { user_id: 1, display_name: "Kim".to_string() },
            MemberRecord { user_id: 2, display_name: "Lee".to_string() },
            MemberRecord { user_id: 1, display_name: "Shadowed".to_string() },
        ],
        project_mapping: vec![ProjectRecord { name: "Alpha".to_string(), member_ids: vec![1, 2] }],
        project_pms: vec![PmRecord { project: "Alpha".to_string(), pm_id: 1 }],
    }
}

#[test]
fn lookups_follow_the_first_entry() {
    let c = sample();
    assert_eq!(c.member_display_name(1), Some("Kim".to_string()));
    assert_eq!(c.member_display_name(9), None);
    assert!(c.has_member(2));
    assert!(!c.has_member(3));
    assert!(c.has_project(&"Alpha".to_string()));
    assert!(!c.has_project(&"alpha".to_string()));
    assert!(c.project_has_member(&"Alpha".to_string(), 2));
    assert!(!c.project_has_member(&"Alpha".to_string(), 3));
    assert!(!c.project_has_member(&"Beta".to_string(), 1));
    assert_eq!(c.project_pm(&"Alpha".to_string()), Some(1));
    assert_eq!(c.project_pm(&"Beta".to_string()), None);
}

#[test]
fn member_update_uses_the_shown_name() {
    let nick = Some("Nick".to_string());
    let global = Some("Global".to_string());
    let name = "user".to_string();
    match member_update_notice(7, &nick, &global, &name) {
        CacheCommand::UpdateSingleMember { user_id, display_name } => {
            assert_eq!(user_id, 7);
            assert_eq!(display_name, "Nick");
        }
        _ => panic!("unexpected command"),
    }
    match member_update_notice(7, &None, &global, &name) {
        CacheCommand::UpdateSingleMember { display_name, .. } => assert_eq!(display_name, "Global"),
        _ => panic!("unexpected command"),
    }
    match member_update_notice(7, &None, &None, &name) {
        CacheCommand::UpdateSingleMember { display_name, .. } => assert_eq!(display_name, "user"),
        _ => panic!("unexpected command"),
    }
}
