// Role parsing, display, defaults and the permission table

use privatechefspace::models::CreateUser;
use privatechefspace::roles::{
    has_permission, require_admin, require_admin_or_mod, require_chef, require_chef_or_admin,
    require_roles, Role,
};
use std::str::FromStr;

#[test]
fn test_role_display() {
    assert_eq!(Role::Admin.to_string(), "admin");
    assert_eq!(Role::Mod.to_string(), "mod");
    assert_eq!(Role::Chef.to_string(), "chef");
    assert_eq!(Role::Diner.to_string(), "diner");
}

#[test]
fn test_role_from_str() {
    assert_eq!(Role::from_str("admin").unwrap(), Role::Admin);
    assert_eq!(Role::from_str("ADMIN").unwrap(), Role::Admin);
    assert_eq!(Role::from_str("mod").unwrap(), Role::Mod);
    assert_eq!(Role::from_str("chef").unwrap(), Role::Chef);
    assert_eq!(Role::from_str("diner").unwrap(), Role::Diner);
    assert!(Role::from_str("invalid").is_err());
}

#[test]
fn test_role_default() {
    assert_eq!(Role::default(), Role::Diner);
}

#[test]
fn test_create_user_defaults_to_diner() {
    let create_user = CreateUser {
        email: "test@example.com".to_string(),
        password: "password".to_string(),
        role: None,
    };

    assert_eq!(create_user.role, None);

    // In actual registration, we default to Diner if None
    let role = create_user.role.unwrap_or(Role::Diner);
    assert_eq!(role, Role::Diner);
}

#[test]
fn test_role_permissions() {
    // Admin can do everything
    assert!(has_permission(Role::Admin, "manage_content"));
    assert!(has_permission(Role::Admin, "manage_users"));
    assert!(has_permission(Role::Admin, "view_reports"));
    assert!(has_permission(Role::Admin, "manage_own_chef_profile"));

    // Mod can manage content and users
    assert!(has_permission(Role::Mod, "manage_content"));
    assert!(has_permission(Role::Mod, "manage_users"));
    assert!(has_permission(Role::Mod, "view_reports"));
    assert!(!has_permission(Role::Mod, "manage_own_chef_profile"));

    // Chef can manage own content
    assert!(has_permission(Role::Chef, "manage_own_chef_profile"));
    assert!(has_permission(Role::Chef, "manage_own_menus"));
    assert!(has_permission(Role::Chef, "manage_own_bookings"));
    assert!(!has_permission(Role::Chef, "manage_content"));

    // Diner can view and book
    assert!(has_permission(Role::Diner, "view_chefs"));
    assert!(has_permission(Role::Diner, "create_booking"));
    assert!(has_permission(Role::Diner, "view_own_bookings"));
    assert!(!has_permission(Role::Diner, "manage_content"));
}

#[test]
fn admin_may_do_any_action() {
    for action in ["manage_content", "delete_everything", "", "VIEW_CHEFS"] {
        assert!(has_permission(Role::Admin, action));
    }
}

#[test]
fn diner_may_not_manage_content_and_actions_are_case_sensitive() {
    assert!(!has_permission(Role::Diner, "manage_content"));
    assert!(!has_permission(Role::Diner, "View_Chefs"));
    assert!(!has_permission(Role::Mod, "view_chefs"));
    assert!(!has_permission(Role::Chef, "create_booking"));
}

#[test]
fn parse_error_names_the_value() {
    assert_eq!(Role::parse("Waiter").unwrap_err(), "Invalid role: Waiter");
    assert_eq!(Role::parse("ChEf").unwrap(), Role::Chef);
}

#[test]
fn stored_role_is_trimmed_lowercased_and_falls_back_to_diner() {
    assert_eq!(Role::from_stored("  ADMIN "), Role::Admin);
    assert_eq!(Role::from_stored("Mod"), Role::Mod);
    assert_eq!(Role::from_stored("superuser"), Role::Diner);
    assert_eq!(Role::from_stored(""), Role::Diner);
}

#[test]
fn role_guards_follow_their_allow_lists() {
    assert!(require_admin(Role::Admin).is_ok());
    assert!(require_admin(Role::Mod).is_err());
    assert!(require_admin_or_mod(Role::Mod).is_ok());
    assert!(require_admin_or_mod(Role::Chef).is_err());
    assert!(require_chef(Role::Chef).is_ok());
    assert!(require_chef(Role::Admin).is_err());
    assert!(require_chef_or_admin(Role::Admin).is_ok());
    assert!(require_chef_or_admin(Role::Diner).is_err());
    let err = require_roles(Role::Diner, &[Role::Admin, Role::Mod]).unwrap_err();
    assert_eq!(err.to_string(), "Unauthorized: Access denied. Required roles: [Admin, Mod]");
    assert_eq!(err.status_code(), 401);
}

#[test]
fn create_user_role_defaults() {
    let u = CreateUser { email: "a@b.c".to_string(), password: "pw".to_string(), role: None };
    assert_eq!(u.role_or_default(), Role::Diner);
    let u = CreateUser { email: "a@b.c".to_string(), password: "pw".to_string(), role: Some(Role::Chef) };
    assert_eq!(u.role_or_default(), Role::Chef);
}

#[test]
fn role_names_read_back_through_from_str() {
    for role in [Role::Admin, Role::Mod, Role::Chef, Role::Diner] {
        assert_eq!(Role::from_str(&role.to_string()), Ok(role));
    }
    assert_eq!(Role::from_str("Diner"), Ok(Role::Diner));
    assert_eq!(Role::from_str("cook"), Err("Invalid role: cook".to_string()));
}
