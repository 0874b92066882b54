//! Tasks of a project: creation and update rules, tags, comments and
//! attachments.
use vstd::prelude::*;

use crate::error::{check_view, text_view, ApiError, ErrorView};
use crate::rbac::{authorize, Action, OrgRole, ProjectRole};
use crate::status::Priority;
use crate::text::{
    chars_of, decimal, owned, push_char, push_decimal, push_str, trim, trimmed,
};

verus! {

/// The priority a task gets when none is given.
pub fn default_priority() -> (p: Priority)
    ensures
        p == Priority::Medium,
{
    Priority::Medium
}

/// Creating a task: by those who may edit tasks; the trimmed title must not
/// be empty. On success, the trimmed title.
pub open spec fn spec_new_task_title(is_superadmin: bool, role: ProjectRole, title: Seq<char>) -> Result<Seq<char>, ErrorView> {
    if !(is_superadmin || role.permits(Action::EditTask)) {
        Err(ErrorView::Forbidden)
    } else if trim(title).len() == 0 {
        Err(ErrorView::BadRequest("title is required"@))
    } else {
        Ok(trim(title))
    }
}

pub fn check_new_task(is_superadmin: bool, role: ProjectRole, title: &str) -> (r: Result<String, ApiError>)
    ensures
        text_view(r) == spec_new_task_title(is_superadmin, role, title@),
{
    authorize(is_superadmin, role, Action::EditTask)?;
    let t = trimmed(title);
    if t.as_str().is_empty() {
        return Err(ApiError::BadRequest(owned("title is required")));
    }
    Ok(t)
}

/// Updating a task: by those who may edit tasks; a new title, when given,
/// must not be blank (the title itself is stored as given).
pub fn check_task_update(is_superadmin: bool, role: ProjectRole, title: Option<&str>) -> (r: Result<(), ApiError>)
    ensures
        check_view(r) == (if !(is_superadmin || role.permits(Action::EditTask)) {
            Err(ErrorView::Forbidden)
        } else if title matches Some(t) && trim(t@).len() == 0 {
            Err(ErrorView::BadRequest("title cannot be empty"@))
        } else {
            Ok::<(), ErrorView>(())
        }),
{
    authorize(is_superadmin, role, Action::EditTask)?;
    if let Some(t) = title {
        if trimmed(t).as_str().is_empty() {
            return Err(ApiError::BadRequest(owned("title cannot be empty")));
        }
    }
    Ok(())
}

/// Whether a user may be assigned a project's tasks: an explicit project
/// member may; otherwise the project must exist and the user must be an
/// owner or admin of its organization (implicit members of every project).
pub open spec fn spec_assignee_check(project_member: bool, project_exists: bool, org_role: Option<OrgRole>) -> Result<(), ErrorView> {
    if project_member {
        Ok(())
    } else if !project_exists {
        Err(ErrorView::NotFound)
    } else if org_role matches Some(r) && r.at_least(OrgRole::Admin) {
        Ok(())
    } else {
        Err(ErrorView::BadRequest("assignee must be a member of this project"@))
    }
}

pub fn check_assignee(project_member: bool, project_exists: bool, org_role: Option<OrgRole>) -> (r: Result<(), ApiError>)
    ensures
        check_view(r) == spec_assignee_check(project_member, project_exists, org_role),
{
    if project_member {
        return Ok(());
    }
    if !project_exists {
        return Err(ApiError::NotFound);
    }
    match org_role {
        Some(role) => if role.is_at_least(OrgRole::Admin) {
            Ok(())
        } else {
            Err(ApiError::BadRequest(owned("assignee must be a member of this project")))
        },
        None => Err(ApiError::BadRequest(owned("assignee must be a member of this project"))),
    }
}

/// Deleting a task: by those who may delete tasks.
pub fn check_task_delete(is_superadmin: bool, role: ProjectRole) -> (r: Result<(), ApiError>)
    ensures
        r is Ok <==> (is_superadmin || role.permits(Action::DeleteTask)),
        r is Err ==> r == Err::<(), ApiError>(ApiError::Forbidden),
{
    authorize(is_superadmin, role, Action::DeleteTask)
}

/// Setting a task's tags: by those who may edit tasks, and every requested
/// tag must belong to the task's project.
pub fn check_task_tags(is_superadmin: bool, role: ProjectRole, requested: &Vec<u128>, project_tags: &Vec<u128>) -> (r: Result<(), ApiError>)
    ensures
        check_view(r) == (if !(is_superadmin || role.permits(Action::EditTask)) {
            Err(ErrorView::Forbidden)
        } else if exists|i: int| 0 <= i < requested@.len() && !project_tags@.contains(#[trigger] requested@[i]) {
            Err(ErrorView::BadRequest("one or more tags do not belong to this project"@))
        } else {
            Ok::<(), ErrorView>(())
        }),
{
    authorize(is_superadmin, role, Action::EditTask)?;
    let mut i: usize = 0;
    while i < requested.len()
        invariant
            is_superadmin || role.permits(Action::EditTask),
            i <= requested@.len(),
            forall|k: int| 0 <= k < i ==> project_tags@.contains(#[trigger] requested@[k]),
        decreases requested.len() - i,
    {
        let id = requested[i];
        let mut found = false;
        let mut j: usize = 0;
        while j < project_tags.len()
            invariant
                j <= project_tags@.len(),
                found ==> project_tags@.contains(id),
                !found ==> forall|k: int| 0 <= k < j ==> project_tags@[k] != id,
            decreases project_tags.len() - j,
        {
            if project_tags[j] == id {
                found = true;
            }
            j = j + 1;
        }
        if !found {
            proof {
                assert(requested@[i as int] == id);
                if project_tags@.contains(id) {
                    let k = choose|k: int| 0 <= k < project_tags@.len() && project_tags@[k] == id;
                    assert(project_tags@[k] != id);
                }
                assert(!project_tags@.contains(requested@[i as int]));
            }
            return Err(ApiError::BadRequest(owned("one or more tags do not belong to this project")));
        }
        i = i + 1;
    }
    Ok(())
}

pub struct CreateCommentRequest {
    pub body: String,
}

pub struct UpdateCommentRequest {
    pub body: String,
}

/// A comment's body: trimmed, and not empty.
pub open spec fn spec_comment_body(body: Seq<char>) -> Result<Seq<char>, ErrorView> {
    if trim(body).len() == 0 {
        Err(ErrorView::BadRequest("comment body is required"@))
    } else {
        Ok(trim(body))
    }
}

pub fn check_comment_body(body: &str) -> (r: Result<String, ApiError>)
    ensures
        text_view(r) == spec_comment_body(body@),
{
    let t = trimmed(body);
    if t.as_str().is_empty() {
        return Err(ApiError::BadRequest(owned("comment body is required")));
    }
    Ok(t)
}

/// Editing or deleting a comment (or an attachment): the item must belong
/// to the task in the path (else it is not found), and only its author
/// (uploader), a superadmin or a project lead may touch it.
pub open spec fn spec_author_or_lead(
    item_task: u128,
    scope_task: u128,
    author: u128,
    user: u128,
    is_superadmin: bool,
    role: ProjectRole,
) -> Result<(), ErrorView> {
    if item_task != scope_task {
        Err(ErrorView::NotFound)
    } else if !(author == user || is_superadmin || role.permits(Action::ManageProjectMembers)) {
        Err(ErrorView::Forbidden)
    } else {
        Ok(())
    }
}

pub fn require_author_or_lead(
    item_task: u128,
    scope_task: u128,
    author: u128,
    user: u128,
    is_superadmin: bool,
    role: ProjectRole,
) -> (r: Result<(), ApiError>)
    ensures
        check_view(r) == spec_author_or_lead(item_task, scope_task, author, user, is_superadmin, role),
{
    if item_task != scope_task {
        return Err(ApiError::NotFound);
    }
    let is_author = author == user;
    let is_lead = is_superadmin || role.can(Action::ManageProjectMembers);
    if !(is_author || is_lead) {
        return Err(ApiError::Forbidden);
    }
    Ok(())
}

/// An attachment may be read through a task only if it belongs to it.
pub fn check_attachment_task(item_task: u128, scope_task: u128) -> (r: Result<(), ApiError>)
    ensures
        check_view(r) == (if item_task != scope_task {
            Err(ErrorView::NotFound)
        } else {
            Ok::<(), ErrorView>(())
        }),
{
    if item_task != scope_task {
        Err(ApiError::NotFound)
    } else {
        Ok(())
    }
}

/// Bytes in a mebibyte.
pub open spec fn mib() -> int {
    1_048_576int
}

/// An upload may be at most `max_upload_mb` MiB.
pub fn check_upload_size(size: usize, max_upload_mb: usize) -> (r: Result<(), ApiError>)
    requires
        max_upload_mb * mib() <= usize::MAX,
    ensures
        check_view(r) == (if size > max_upload_mb * mib() {
            Err(ErrorView::BadRequest("file exceeds the "@ + decimal(max_upload_mb as nat) + " MB limit"@))
        } else {
            Ok::<(), ErrorView>(())
        }),
{
    let max_bytes = max_upload_mb * 1024 * 1024;
    if size > max_bytes {
        let mut msg = owned("file exceeds the ");
        push_decimal(&mut msg, max_upload_mb as u64);
        push_str(&mut msg, " MB limit");
        return Err(ApiError::BadRequest(msg));
    }
    Ok(())
}

/// The request body limit: the upload limit plus one MiB for the rest of
/// a multipart request.
pub fn request_body_limit(max_upload_mb: usize) -> (r: usize)
    requires
        max_upload_mb * mib() + mib() <= usize::MAX,
    ensures
        r == max_upload_mb * mib() + mib(),
{
    max_upload_mb * 1024 * 1024 + 1024 * 1024
}

/// The `Content-Disposition` header of a download: the file name with its
/// double quotes removed, in double quotes.
pub open spec fn spec_content_disposition(file_name: Seq<char>) -> Seq<char> {
    "attachment; filename=\""@ + file_name.filter(|c: char| c != '"') + "\""@
}

pub fn content_disposition(file_name: &str) -> (r: String)
    ensures
        r@ == spec_content_disposition(file_name@),
{
    let v = chars_of(file_name);
    let mut r = owned("attachment; filename=\"");
    let ghost head = r@;
    let mut i: usize = 0;
    while i < v.len()
        invariant
            v@ == file_name@,
            i <= v@.len(),
            r@ == head + v@.take(i as int).filter(|c: char| c != '"'),
        decreases v.len() - i,
    {
        let c = v[i];
        proof {
            assert(v@.take(i + 1).drop_last() =~= v@.take(i as int));
            v@.take(i as int).lemma_filter_push(c, |c: char| c != '"');
            assert(v@.take(i as int).push(c) =~= v@.take(i + 1));
        }
        if c != '"' {
            push_char(&mut r, c);
        }
        i = i + 1;
    }
    proof {
        assert(v@.take(v@.len() as int) =~= v@);
    }
    push_str(&mut r, "\"");
    r
}

} // verus!

verus! {

/// Who may be assigned a project's tasks: anyone with an explicit
/// membership; and, among others, exactly those to whom the RBAC rules give
/// a project role without a membership, i.e. owners and admins of the
/// project's organization (implicit leads of every project). Of a project
/// that does not exist, no one but a member may be.
pub proof fn lemma_assignees_are_those_who_may_act(
    project_member: bool,
    project_exists: bool,
    org_role: Option<OrgRole>,
)
    ensures
        project_member ==> spec_assignee_check(project_member, project_exists, org_role) is Ok,
        !project_member && project_exists ==> (spec_assignee_check(
            project_member,
            project_exists,
            org_role,
        ) is Ok <==> crate::rbac::spec_project_role(false, org_role, None) is Ok),
        project_exists && (org_role matches Some(r) && r.at_least(OrgRole::Admin))
            ==> spec_assignee_check(project_member, project_exists, org_role) is Ok,
        !project_member && !project_exists ==> spec_assignee_check(
            project_member,
            project_exists,
            org_role,
        ) == Err::<(), ErrorView>(ErrorView::NotFound),
{
}

} // verus!
