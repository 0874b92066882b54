use circus::auth::{
    bootstrap_after_check, bootstrap_after_lookup, bootstrap_start, BootstrapAction,
    access_claims, auth_user_from_claims, bearer_token, check_bootstrap_password,
    check_instance_role_change, check_registration, normalize_email, refresh_claims,
    refresh_subject, RegisterRequest, TokenType,
};
use circus::error::ApiError;
use circus::rbac::{AuthUser, InstanceRole};
use circus::time::Timestamp;

fn req(email: &str, password: &str, name: &str) -> RegisterRequest {
    RegisterRequest {
        email: email.to_string(),
        password: password.to_string(),
        display_name: name.to_string(),
    }
}

#[test]
fn emails_are_trimmed_and_lowercased() {
    assert_eq!(normalize_email("  Alice@Example.COM \n"), "alice@example.com");
}

#[test]
fn registration_rules_apply_in_order() {
    let ok = check_registration(&req(" Bob@X.io ", "longenough", "  Bob ")).unwrap();
    assert_eq!(ok.0, "bob@x.io");
    assert_eq!(ok.1, "Bob");
    match check_registration(&req("nobody", "short", "")) {
        Err(ApiError::BadRequest(m)) => assert_eq!(m, "invalid email"),
        _ => panic!("expected a bad request"),
    }
    match check_registration(&req("a@b", "short", "")) {
        Err(ApiError::BadRequest(m)) => assert_eq!(m, "password must be at least 8 characters"),
        _ => panic!("expected a bad request"),
    }
    match check_registration(&req("a@b", "12345678", " \t")) {
        Err(ApiError::BadRequest(m)) => assert_eq!(m, "display name is required"),
        _ => panic!("expected a bad request"),
    }
    let long = format!("{}@x.io", "a".repeat(316));
    assert!(check_registration(&req(&long, "12345678", "n")).is_err());
    let just = format!("{}@x.io", "a".repeat(315));
    assert!(check_registration(&req(&just, "12345678", "n")).is_ok());
    // the password limit counts bytes
    assert!(check_registration(&req("a@b", "ééééé", "n")).is_ok());
    assert!(check_bootstrap_password("1234567").is_err());
    assert!(check_bootstrap_password("12345678").is_ok());
}

#[test]
fn bearer_tokens_follow_the_scheme() {
    assert_eq!(bearer_token("Bearer abc.def"), Some("abc.def".to_string()));
    assert_eq!(bearer_token("bearer abc"), None);
    assert_eq!(bearer_token("Bearer"), None);
    assert_eq!(bearer_token("Bearer "), Some(String::new()));
}

#[test]
fn access_tokens_authenticate_and_refresh_tokens_do_not() {
    let now = Timestamp::new(1_700_000_000, 5).unwrap();
    let access = access_claims(7, InstanceRole::Superadmin, &now, 15).unwrap();
    assert_eq!(access.iat, 1_700_000_000);
    assert_eq!(access.exp, 1_700_000_900);
    assert_eq!(access.typ, TokenType::Access);
    let user = auth_user_from_claims(&access).unwrap();
    assert_eq!(user.user_id, 7);
    assert!(user.is_superadmin());
    let refresh = refresh_claims(7, &now, 7).unwrap();
    assert_eq!(refresh.exp, 1_700_000_000 + 7 * 86_400);
    assert!(matches!(auth_user_from_claims(&refresh), Err(ApiError::Unauthorized)));
    assert_eq!(refresh_subject(&refresh).unwrap(), 7);
    assert!(matches!(refresh_subject(&access), Err(ApiError::Unauthorized)));
    assert!(access_claims(7, InstanceRole::User, &now, i64::MAX).is_none());
}

#[test]
fn superadmins_cannot_demote_themselves() {
    let me = AuthUser { user_id: 1, instance_role: InstanceRole::Superadmin };
    let other = AuthUser { user_id: 2, instance_role: InstanceRole::User };
    assert!(matches!(
        check_instance_role_change(&other, 3, InstanceRole::Superadmin),
        Err(ApiError::Forbidden)
    ));
    match check_instance_role_change(&me, 1, InstanceRole::User) {
        Err(ApiError::Conflict(m)) => assert_eq!(m, "cannot remove your own superadmin role"),
        _ => panic!("expected a conflict"),
    }
    assert!(check_instance_role_change(&me, 2, InstanceRole::User).is_ok());
    assert!(check_instance_role_change(&me, 1, InstanceRole::Superadmin).is_ok());
}

#[test]
fn bootstrap_runs_on_first_boot_only() {
    assert!(matches!(bootstrap_start(None, Some("longenough")), BootstrapAction::Done));
    assert!(matches!(bootstrap_start(Some("a@x.io"), None), BootstrapAction::Done));
    assert!(matches!(bootstrap_start(Some("a@x.io"), Some("x")), BootstrapAction::CheckSuperadmin));
    // once a superadmin exists, nothing is done, whatever the password
    assert!(matches!(bootstrap_after_check("a@x.io", "x", true), BootstrapAction::Done));
    assert!(matches!(bootstrap_after_check("a@x.io", "longenough", true), BootstrapAction::Done));
    match bootstrap_after_check("a@x.io", "short", false) {
        BootstrapAction::Refuse(m) => {
            assert_eq!(m, "BOOTSTRAP_ADMIN_PASSWORD must be at least 8 characters")
        }
        _ => panic!("expected a refusal"),
    }
    match bootstrap_after_check("  Admin@X.io ", "longenough", false) {
        BootstrapAction::FindUser(e) => assert_eq!(e, "admin@x.io"),
        _ => panic!("expected a lookup"),
    }
    assert!(matches!(bootstrap_after_lookup("admin@x.io", Some(7)), BootstrapAction::Promote(7)));
    match bootstrap_after_lookup("admin@x.io", None) {
        BootstrapAction::Create(e) => assert_eq!(e, "admin@x.io"),
        _ => panic!("expected a creation"),
    }
}
