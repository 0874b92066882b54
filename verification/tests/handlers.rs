use circus::events::{change_notice, socket_step, SocketAction, SocketEvent};
use circus::error::{expect_affected, ApiError};
use circus::orgs::{
    check_invite, check_invite_acceptance, invite_adds_membership, check_invite_open, check_invite_recipient,
    check_member_removal, check_member_role_change, check_name, guard_not_last_owner,
    invite_expiry, CreateInviteRequest,
};
use circus::projects::{
    check_add_member, check_new_project, check_new_tag, default_tag_color, normalize_key,
    sees_all_projects, CreateProjectRequest, CreateTagRequest,
};
use circus::rbac::{OrgRole, ProjectRole};
use circus::status::Priority;
use circus::tasks::{
    check_assignee, check_attachment_task, check_comment_body, check_new_task, check_task_delete,
    check_task_tags, check_task_update, check_upload_size, content_disposition, default_priority,
    request_body_limit, require_author_or_lead,
};
use circus::time::Timestamp;

fn bad_request(r: Result<impl std::fmt::Debug, ApiError>) -> String {
    match r {
        Err(ApiError::BadRequest(m)) => m,
        other => panic!("expected a bad request, got {other:?}"),
    }
}

#[test]
fn project_keys_are_normalized_and_checked() {
    assert_eq!(normalize_key(" ab1 ").unwrap(), "AB1");
    assert_eq!(normalize_key("core").unwrap(), "CORE");
    assert_eq!(
        bad_request(normalize_key("1ab")),
        "key must be 2-10 letters/digits, starting with a letter"
    );
    assert!(normalize_key("a").is_err());
    assert!(normalize_key("abcdefghijk").is_err());
    assert!(normalize_key("ab-c").is_err());
    // Unicode upper-casing happens before the check
    assert_eq!(normalize_key("straße").unwrap(), "STRASSE");
}

#[test]
fn new_projects_need_rights_a_name_and_a_key() {
    let req = CreateProjectRequest {
        key: "web".to_string(),
        name: "  Website ".to_string(),
        description: None,
    };
    let (name, key) = check_new_project(false, OrgRole::Admin, &req).unwrap();
    assert_eq!(name, "Website");
    assert_eq!(key, "WEB");
    assert!(matches!(check_new_project(false, OrgRole::Member, &req), Err(ApiError::Forbidden)));
    assert!(check_new_project(true, OrgRole::Member, &req).is_ok());
    let blank = CreateProjectRequest { key: "x".to_string(), name: " ".to_string(), description: None };
    assert_eq!(bad_request(check_new_project(false, OrgRole::Owner, &blank)), "name is required");
    assert!(sees_all_projects(false, OrgRole::Admin));
    assert!(!sees_all_projects(false, OrgRole::Member));
    assert!(sees_all_projects(true, OrgRole::Member));
}

#[test]
fn tags_and_members() {
    assert_eq!(default_tag_color(), "#6b7280");
    let tag = CreateTagRequest { name: " bug ".to_string(), color: default_tag_color() };
    assert_eq!(check_new_tag(false, ProjectRole::Contributor, &tag).unwrap(), "bug");
    assert!(matches!(check_new_tag(false, ProjectRole::Viewer, &tag), Err(ApiError::Forbidden)));
    assert!(check_add_member(false, ProjectRole::Lead, true).is_ok());
    assert_eq!(
        bad_request(check_add_member(false, ProjectRole::Lead, false)),
        "user is not a member of this organization"
    );
    assert!(matches!(check_add_member(false, ProjectRole::Contributor, true), Err(ApiError::Forbidden)));
}

#[test]
fn the_last_owner_stays() {
    match guard_not_last_owner(Some(OrgRole::Owner), Some(1)) {
        Err(ApiError::Conflict(m)) => assert_eq!(m, "cannot remove or demote the last owner"),
        _ => panic!("expected a conflict"),
    }
    assert!(guard_not_last_owner(Some(OrgRole::Owner), Some(2)).is_ok());
    assert!(guard_not_last_owner(Some(OrgRole::Admin), None).is_ok());
    assert!(guard_not_last_owner(None, None).is_ok());
    assert!(check_member_role_change(false, OrgRole::Admin, OrgRole::Member, Some(OrgRole::Owner), Some(1)).is_err());
    // promoting to owner never trips the guard
    assert!(check_member_role_change(false, OrgRole::Admin, OrgRole::Owner, Some(OrgRole::Owner), Some(1)).is_ok());
    assert!(matches!(
        check_member_removal(false, OrgRole::Member, None, None),
        Err(ApiError::Forbidden)
    ));
    assert!(check_member_removal(true, OrgRole::Member, Some(OrgRole::Owner), Some(3)).is_ok());
}

#[test]
fn invitations() {
    let req = CreateInviteRequest { email: " New@Example.org ".to_string(), role: OrgRole::Member };
    assert_eq!(check_invite(false, OrgRole::Admin, &req).unwrap(), "new@example.org");
    assert!(matches!(check_invite(false, OrgRole::Member, &req), Err(ApiError::Forbidden)));
    let bad = CreateInviteRequest { email: "nope".to_string(), role: OrgRole::Member };
    assert_eq!(bad_request(check_invite(true, OrgRole::Member, &bad)), "invalid email");
    let now = Timestamp::new(1_000_000, 0).unwrap();
    let exp = invite_expiry(&now).unwrap();
    assert_eq!(exp.secs(), 1_000_000 + 7 * 86_400);
    let later = Timestamp::new(2_000_000, 0).unwrap();
    assert!(check_invite_acceptance(false, &exp, &now, "A@x.io", "a@X.io").is_ok());
    match check_invite_acceptance(false, &exp, &later, "a@x.io", "a@x.io") {
        Err(ApiError::Conflict(m)) => assert_eq!(m, "invite expired"),
        _ => panic!("expected expiry"),
    }
    match check_invite_acceptance(true, &exp, &now, "a@x.io", "a@x.io") {
        Err(ApiError::Conflict(m)) => assert_eq!(m, "invite already used"),
        _ => panic!("expected used"),
    }
    assert!(matches!(
        check_invite_acceptance(false, &exp, &now, "b@x.io", "a@x.io"),
        Err(ApiError::Forbidden)
    ));
    assert!(check_invite_open(false, &exp, &exp).is_ok());
    assert!(matches!(check_invite_open(false, &now, &exp), Err(ApiError::Conflict(_))));
    assert!(check_invite_recipient("ME@x.io", "me@X.IO").is_ok());
    assert!(matches!(check_invite_recipient("you@x.io", "me@x.io"), Err(ApiError::Forbidden)));
    assert_eq!(check_name("  Acme ").unwrap(), "Acme");
    assert!(matches!(expect_affected(0), Err(ApiError::NotFound)));
    assert!(expect_affected(1).is_ok());
}

#[test]
fn task_rules() {
    assert_eq!(default_priority(), Priority::Medium);
    assert_eq!(check_new_task(false, ProjectRole::Contributor, "  Fix it ").unwrap(), "Fix it");
    assert_eq!(bad_request(check_new_task(false, ProjectRole::Lead, "  ")), "title is required");
    assert!(matches!(check_new_task(false, ProjectRole::Viewer, "x"), Err(ApiError::Forbidden)));
    assert!(check_task_update(false, ProjectRole::Contributor, None).is_ok());
    assert_eq!(
        bad_request(check_task_update(false, ProjectRole::Contributor, Some(" "))),
        "title cannot be empty"
    );
    assert!(check_task_delete(false, ProjectRole::Contributor).is_err());
    assert!(check_task_delete(false, ProjectRole::Lead).is_ok());
    assert!(check_assignee(true, false, None).is_ok());
    assert!(matches!(check_assignee(false, false, None), Err(ApiError::NotFound)));
    assert!(check_assignee(false, true, Some(OrgRole::Owner)).is_ok());
    assert_eq!(
        bad_request(check_assignee(false, true, Some(OrgRole::Member))),
        "assignee must be a member of this project"
    );
    assert!(check_task_tags(false, ProjectRole::Contributor, &vec![1, 2], &vec![2, 3, 1]).is_ok());
    assert_eq!(
        bad_request(check_task_tags(false, ProjectRole::Contributor, &vec![1, 4], &vec![1, 2])),
        "one or more tags do not belong to this project"
    );
    assert!(check_task_tags(false, ProjectRole::Contributor, &vec![], &vec![]).is_ok());
}

#[test]
fn comments_and_attachments() {
    assert_eq!(check_comment_body(" hi\n").unwrap(), "hi");
    assert_eq!(bad_request(check_comment_body("\n")), "comment body is required");
    assert!(matches!(require_author_or_lead(1, 2, 5, 5, false, ProjectRole::Viewer), Err(ApiError::NotFound)));
    assert!(require_author_or_lead(1, 1, 5, 5, false, ProjectRole::Viewer).is_ok());
    assert!(matches!(require_author_or_lead(1, 1, 5, 6, false, ProjectRole::Contributor), Err(ApiError::Forbidden)));
    assert!(require_author_or_lead(1, 1, 5, 6, false, ProjectRole::Lead).is_ok());
    assert!(require_author_or_lead(1, 1, 5, 6, true, ProjectRole::Viewer).is_ok());
    assert!(check_attachment_task(3, 3).is_ok());
    assert!(matches!(check_attachment_task(3, 4), Err(ApiError::NotFound)));
    assert!(check_upload_size(25 * 1024 * 1024, 25).is_ok());
    assert_eq!(bad_request(check_upload_size(25 * 1024 * 1024 + 1, 25)), "file exceeds the 25 MB limit");
    assert_eq!(request_body_limit(25), 26 * 1024 * 1024);
    assert_eq!(content_disposition("a\"b\".txt"), "attachment; filename=\"ab.txt\"");
}

#[test]
fn errors_answer_with_their_status_and_a_public_message() {
    let cases = [
        (ApiError::BadRequest("title required".to_string()), 400, "title required"),
        (ApiError::Unauthorized, 401, "unauthorized"),
        (ApiError::Forbidden, 403, "forbidden"),
        (ApiError::NotFound, 404, "not found"),
        (ApiError::Conflict("invite expired".to_string()), 409, "invite expired"),
        (ApiError::Internal("connection reset".to_string()), 500, "internal server error"),
    ];
    for (e, code, message) in cases {
        assert_eq!(e.status_code(), code);
        assert_eq!(e.public_message(), message);
    }
}

#[test]
fn accepting_keeps_an_existing_membership() {
    assert!(invite_adds_membership(None));
    assert!(!invite_adds_membership(Some(OrgRole::Admin)));
}

#[test]
fn board_sockets_pass_on_their_own_project_only() {
    assert!(matches!(socket_step(7, SocketEvent::Changed(7)), SocketAction::Notify));
    assert!(matches!(socket_step(7, SocketEvent::Changed(8)), SocketAction::Wait));
    assert!(matches!(socket_step(7, SocketEvent::Lagged), SocketAction::Wait));
    assert!(matches!(socket_step(7, SocketEvent::ClientMessage), SocketAction::Wait));
    assert!(matches!(socket_step(7, SocketEvent::ClientGone), SocketAction::Stop));
    assert!(matches!(socket_step(7, SocketEvent::ChangesClosed), SocketAction::Stop));
    assert!(matches!(socket_step(7, SocketEvent::SendFailed), SocketAction::Stop));
    assert_eq!(change_notice(), "tasks_changed");
}
