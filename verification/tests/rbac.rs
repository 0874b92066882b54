use circus::error::ApiError;
use circus::rbac::{authorize, resolve_project_role, Action, AuthUser, InstanceRole, OrgRole, ProjectRole};

#[test]
fn org_admin_can_manage_members_but_not_org_settings() {
    assert!(OrgRole::Admin.can(Action::ManageOrgMembers));
    assert!(!OrgRole::Admin.can(Action::ManageOrgSettings));
    assert!(OrgRole::Owner.can(Action::ManageOrgSettings));
}

#[test]
fn project_viewer_is_read_only() {
    assert!(ProjectRole::Viewer.can(Action::ViewBoard));
    assert!(!ProjectRole::Viewer.can(Action::EditTask));
    assert!(ProjectRole::Contributor.can(Action::EditTask));
    assert!(!ProjectRole::Contributor.can(Action::DeleteTask));
    assert!(ProjectRole::Lead.can(Action::DeleteTask));
}

#[test]
fn org_roles_never_decide_project_actions() {
    for role in [OrgRole::Member, OrgRole::Admin, OrgRole::Owner] {
        assert!(!role.can(Action::ViewBoard));
        assert!(!role.can(Action::EditTask));
        assert!(!role.can(Action::DeleteTask));
        assert!(!role.can(Action::ManageProjectMembers));
    }
    assert!(!OrgRole::Member.can(Action::CreateProject));
    assert!(OrgRole::Admin.can(Action::CreateProject));
    assert!(!OrgRole::Admin.can(Action::DeleteProject));
    assert!(OrgRole::Owner.can(Action::DeleteProject));
}

#[test]
fn project_roles_never_decide_org_actions() {
    for role in [ProjectRole::Viewer, ProjectRole::Contributor, ProjectRole::Lead] {
        assert!(role.can(Action::ViewBoard));
        assert!(!role.can(Action::ManageOrgSettings));
        assert!(!role.can(Action::ManageOrgMembers));
        assert!(!role.can(Action::CreateProject));
        assert!(!role.can(Action::DeleteProject));
    }
    assert!(!ProjectRole::Contributor.can(Action::ManageProjectMembers));
    assert!(ProjectRole::Lead.can(Action::ManageProjectMembers));
}

#[test]
fn role_order_is_member_admin_owner() {
    assert!(OrgRole::Owner.is_at_least(OrgRole::Admin));
    assert!(OrgRole::Admin.is_at_least(OrgRole::Admin));
    assert!(!OrgRole::Member.is_at_least(OrgRole::Admin));
    assert_eq!(ProjectRole::Lead.rank(), 2);
    assert_eq!(ProjectRole::Viewer.rank(), 0);
}

#[test]
fn superadmin_and_org_admins_are_project_leads() {
    assert!(matches!(resolve_project_role(true, None, None), Ok(ProjectRole::Lead)));
    assert!(matches!(
        resolve_project_role(false, Some(OrgRole::Admin), None),
        Ok(ProjectRole::Lead)
    ));
    assert!(matches!(
        resolve_project_role(false, Some(OrgRole::Member), Some(ProjectRole::Contributor)),
        Ok(ProjectRole::Contributor)
    ));
    assert!(matches!(
        resolve_project_role(false, Some(OrgRole::Member), None),
        Err(ApiError::Forbidden)
    ));
    assert!(matches!(
        resolve_project_role(false, None, Some(ProjectRole::Lead)),
        Err(ApiError::Forbidden)
    ));
}

#[test]
fn superadmin_is_implicit_org_owner() {
    assert!(matches!(circus::rbac::org_scope_role(true, None), Ok(OrgRole::Owner)));
    assert!(matches!(
        circus::rbac::org_scope_role(false, Some(OrgRole::Member)),
        Ok(OrgRole::Member)
    ));
    assert!(matches!(circus::rbac::org_scope_role(false, None), Err(ApiError::Forbidden)));
    let admin = AuthUser { user_id: 1, instance_role: InstanceRole::Superadmin };
    let user = AuthUser { user_id: 2, instance_role: InstanceRole::User };
    assert!(admin.is_superadmin());
    assert!(!user.is_superadmin());
}

#[test]
fn authorize_refuses_with_forbidden() {
    assert!(authorize(false, ProjectRole::Viewer, Action::ViewBoard).is_ok());
    assert!(matches!(
        authorize(false, ProjectRole::Viewer, Action::EditTask),
        Err(ApiError::Forbidden)
    ));
    assert!(authorize(true, ProjectRole::Viewer, Action::DeleteTask).is_ok());
    // project roles never grant project deletion: only superadmins get it
    assert!(authorize(false, ProjectRole::Lead, Action::DeleteProject).is_err());
    assert_eq!(ApiError::Forbidden.status_code(), 403);
    assert_eq!(ApiError::Conflict("x".to_string()).status_code(), 409);
}
