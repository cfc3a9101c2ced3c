use project_bot::category::{category_title, project_key_of_category, project_of_category};
use project_bot::permissions::{check_admin, find_project_role, first_role_with_lower_name, find_role_named, RoleRecord};
use project_bot::text::{
    chars_of, decimal_string, join, mention, same_ignoring_case, split_before, str_equal, trim,
};

#[test]
fn trim_removes_surrounding_whitespace() {
    assert_eq!(trim("  alpha beta \t\n"), "alpha beta");
    assert_eq!(trim("\u{3000}프로젝트\u{a0}"), "프로젝트");
    assert_eq!(trim("   "), "");
    assert_eq!(trim(""), "");
    assert_eq!(trim("x"), "x");
}

#[test]
fn split_before_takes_the_first_piece() {
    assert_eq!(split_before("Alpha(PM: Kim)", "(PM: "), "Alpha");
    assert_eq!(split_before("a(PM: b(PM: c)", "(PM: "), "a");
    assert_eq!(split_before("no separator", "(PM: "), "no separator");
    assert_eq!(split_before("abc", ""), "");
    assert_eq!(split_before("", "(PM: "), "");
}

#[test]
fn chars_and_equality() {
    assert_eq!(chars_of("한글a"), vec!['한', '글', 'a']);
    assert!(str_equal("list", "list"));
    assert!(!str_equal("list", "lists"));
    assert!(!str_equal("add", "adD"));
}

#[test]
fn category_titles_round_trip() {
    let title = category_title("Alpha", "Kim");
    assert_eq!(title, "Alpha(PM: Kim)");
    assert_eq!(project_of_category(&title), "Alpha");
    assert_eq!(project_key_of_category(&title), "Alpha");
    let spaced = category_title(" Beta ", "Lee");
    assert_eq!(project_of_category(&spaced), "Beta");
    assert_eq!(project_key_of_category(&spaced), "Beta");
}

#[test]
fn category_title_readings_differ_on_a_bare_marker() {
    assert_eq!(project_of_category("Gamma (PM:Park)"), "Gamma (PM:Park)");
    assert_eq!(project_key_of_category("Gamma (PM:Park)"), "Gamma");
    assert_eq!(project_of_category("General"), "General");
}

#[test]
fn decimal_and_mentions() {
    assert_eq!(decimal_string(0), "0");
    assert_eq!(decimal_string(7), "7");
    assert_eq!(decimal_string(10), "10");
    assert_eq!(decimal_string(1234567890), "1234567890");
    assert_eq!(decimal_string(u64::MAX), u64::MAX.to_string());
    assert_eq!(mention(42), "<@42>");
    assert_eq!(mention(112233445566778899), "<@112233445566778899>");
}

#[test]
fn join_puts_separators_between() {
    let items = vec!["a".to_string(), "b".to_string(), "c".to_string()];
    assert_eq!(join(&items, ", "), "a, b, c");
    assert_eq!(join(&vec!["solo".to_string()], ", "), "solo");
    assert_eq!(join(&Vec::new(), ", "), "");
}

#[test]
fn case_insensitive_comparison() {
    assert!(same_ignoring_case("Alpha", "aLPHA"));
    assert!(!same_ignoring_case("Alpha", "Alpine"));
}

fn role(id: u64, name: &str, permissions: u64) -> RoleRecord {
    RoleRecord { id, name: name.to_string(), permissions }
}

#[test]
fn administrator_bit_is_read_through_serenity() {
    let roles = vec![role(1, "all", 0xff), role(2, "manage", 1 << 4), role(3, "none", 0)];
    assert!(check_admin(9, 6, &vec![1], &roles));
    assert!(!check_admin(9, 6, &vec![2], &roles));
    assert!(!check_admin(9, 6, &vec![3], &roles));
}

#[test]
fn admin_check_covers_owner_and_roles() {
    let roles = vec![role(1, "admins", 8), role(2, "dev", 1 << 10)];
    assert!(check_admin(5, 5, &vec![], &roles));
    assert!(check_admin(5, 6, &vec![2, 1], &roles));
    assert!(!check_admin(5, 6, &vec![2], &roles));
    assert!(!check_admin(5, 6, &vec![3], &roles));
}

#[test]
fn roles_are_found_by_name() {
    let roles = vec![role(1, "alpha", 0), role(2, "Alpha", 0), role(3, "beta", 0)];
    assert_eq!(find_role_named(&roles, &"Alpha".to_string()), Some(2));
    assert_eq!(find_role_named(&roles, &"gamma".to_string()), None);
    assert_eq!(find_project_role(&roles, &"ALPHA".to_string()), Some(1));
    assert_eq!(find_project_role(&roles, &"".to_string()), None);
    assert_eq!(find_project_role(&roles, &"delta".to_string()), None);
}

#[test]
fn first_role_by_lowered_name() {
    let roles = vec![role(1, "X", 0), role(2, "Y", 0), role(3, "Z", 0)];
    let lowered = vec!["alpha".to_string(), "beta".to_string(), "beta".to_string()];
    assert_eq!(first_role_with_lower_name(&roles, &lowered, &"beta".to_string()), Some(2));
    assert_eq!(first_role_with_lower_name(&roles, &lowered, &"gamma".to_string()), None);
}
