//! Organizations: creation, membership management, invitations.
use vstd::prelude::*;

use crate::auth::spec_normalize_email;
use crate::error::{check_view, text_view, ApiError, ErrorView};
use crate::rbac::{authorize_org, Action, OrgRole};
use crate::text::{contains_char, owned, to_lowercase, trim, trimmed, unicode_lowercase, str_eq};
use crate::time::{chrono_shifted, chrono_minute_text, Timestamp};

verus! {

pub struct CreateOrgRequest {
    pub name: String,
}

pub struct UpdateMemberRoleRequest {
    pub role: OrgRole,
}

pub struct CreateInviteRequest {
    pub email: String,
    pub role: OrgRole,
}

pub struct AcceptInviteRequest {
    pub token: String,
}

/// A non-empty trimmed name, else `BadRequest("name is required")`.
pub open spec fn spec_required_name(name: Seq<char>) -> Result<Seq<char>, ErrorView> {
    if trim(name).len() == 0 {
        Err(ErrorView::BadRequest("name is required"@))
    } else {
        Ok(trim(name))
    }
}

/// The name an organization (or project, or tag) is created with.
pub fn check_name(name: &str) -> (r: Result<String, ApiError>)
    ensures
        text_view(r) == spec_required_name(name@),
{
    let t = trimmed(name);
    if t.as_str().is_empty() {
        Err(ApiError::BadRequest(owned("name is required")))
    } else {
        Ok(t)
    }
}

/// Members are managed by superadmins and by those whose org role permits
/// it (admins and owners).
pub fn require_manage_members(is_superadmin: bool, role: OrgRole) -> (r: Result<(), ApiError>)
    ensures
        r is Ok <==> (is_superadmin || role.permits(Action::ManageOrgMembers)),
        r is Err ==> r == Err::<(), ApiError>(ApiError::Forbidden),
{
    authorize_org(is_superadmin, role, Action::ManageOrgMembers)
}

/// The last owner of an organization can be neither removed nor demoted:
/// when the member concerned is an owner and there is at most one owner,
/// the change is refused.
pub open spec fn spec_guard_not_last_owner(membership: Option<OrgRole>, owner_count: Option<i64>) -> Result<(), ErrorView> {
    if membership == Some(OrgRole::Owner) && owner_count->0 <= 1 {
        Err(ErrorView::Conflict("cannot remove or demote the last owner"@))
    } else {
        Ok(())
    }
}

/// Checks a removal or demotion of the member with `membership` (`None`
/// when not a member); `owner_count` is the number of owners, needed only
/// when the member is an owner.
pub fn guard_not_last_owner(membership: Option<OrgRole>, owner_count: Option<i64>) -> (r: Result<(), ApiError>)
    requires
        membership == Some(OrgRole::Owner) ==> owner_count is Some,
    ensures
        check_view(r) == spec_guard_not_last_owner(membership, owner_count),
{
    match membership {
        Some(OrgRole::Owner) => {
            let owners = match owner_count {
                Some(n) => n,
                None => 0,
            };
            if owners <= 1 {
                return Err(ApiError::Conflict(owned("cannot remove or demote the last owner")));
            }
            Ok(())
        },
        _ => Ok(()),
    }
}

/// Changing a member's role: only by those who manage members; demoting
/// (to anything but owner) must not demote the last owner.
pub fn check_member_role_change(
    is_superadmin: bool,
    role: OrgRole,
    new_role: OrgRole,
    target: Option<OrgRole>,
    owner_count: Option<i64>,
) -> (r: Result<(), ApiError>)
    requires
        target == Some(OrgRole::Owner) ==> owner_count is Some,
    ensures
        check_view(r) == (if !(is_superadmin || role.permits(Action::ManageOrgMembers)) {
            Err(ErrorView::Forbidden)
        } else if new_role != OrgRole::Owner {
            spec_guard_not_last_owner(target, owner_count)
        } else {
            Ok(())
        }),
{
    require_manage_members(is_superadmin, role)?;
    if new_role != OrgRole::Owner {
        guard_not_last_owner(target, owner_count)?;
    }
    Ok(())
}

/// Removing a member: only by those who manage members, never the last
/// owner.
pub fn check_member_removal(
    is_superadmin: bool,
    role: OrgRole,
    target: Option<OrgRole>,
    owner_count: Option<i64>,
) -> (r: Result<(), ApiError>)
    requires
        target == Some(OrgRole::Owner) ==> owner_count is Some,
    ensures
        check_view(r) == (if !(is_superadmin || role.permits(Action::ManageOrgMembers)) {
            Err(ErrorView::Forbidden)
        } else {
            spec_guard_not_last_owner(target, owner_count)
        }),
{
    require_manage_members(is_superadmin, role)?;
    guard_not_last_owner(target, owner_count)
}

/// The e-mail an invitation is sent to: only by those who manage members;
/// trimmed and lower-cased, it must hold an `@`.
pub open spec fn spec_invite_email(is_superadmin: bool, role: OrgRole, email: Seq<char>) -> Result<Seq<char>, ErrorView> {
    if !(is_superadmin || role.permits(Action::ManageOrgMembers)) {
        Err(ErrorView::Forbidden)
    } else if !spec_normalize_email(email).contains('@') {
        Err(ErrorView::BadRequest("invalid email"@))
    } else {
        Ok(spec_normalize_email(email))
    }
}

pub fn check_invite(is_superadmin: bool, role: OrgRole, req: &CreateInviteRequest) -> (r: Result<String, ApiError>)
    ensures
        text_view(r) == spec_invite_email(is_superadmin, role, req.email@),
{
    require_manage_members(is_superadmin, role)?;
    let email = crate::auth::normalize_email(req.email.as_str());
    if !contains_char(email.as_str(), '@') {
        return Err(ApiError::BadRequest(owned("invalid email")));
    }
    Ok(email)
}

/// Invitations expire seven days after they are made (`None` where chrono
/// cannot represent that instant).
pub fn invite_expiry(now: &Timestamp) -> (r: Option<Timestamp>)
    ensures
        match chrono_shifted(now.seconds(), now.subsec_nanos(), 604_800) {
            Some(p) => (chrono_minute_text(p.0, p.1) is Some ==> (r matches Some(t) && t.seconds()
                == p.0 && t.subsec_nanos() == p.1)) && (chrono_minute_text(p.0, p.1) is None ==> r is None),
            None => r is None,
        },
        now.subsec_nanos() < 1_000_000_000 ==> (r matches Some(t) ==> t.seconds() == now.seconds()
            + 604_800 && t.subsec_nanos() == now.subsec_nanos()),
{
    now.shifted(604_800)
}

/// Accepting an invitation adds the user to the organization with the
/// invited role, unless they already are a member: an existing membership
/// keeps its role.
pub fn invite_adds_membership(existing: Option<OrgRole>) -> (b: bool)
    ensures
        b == existing is None,
{
    existing.is_none()
}

/// Whether an invitation is still open: not already used, and not expired.
pub open spec fn spec_invite_open(accepted: bool, expires_at: Timestamp, now: Timestamp) -> Result<(), ErrorView> {
    if accepted {
        Err(ErrorView::Conflict("invite already used"@))
    } else if expires_at.seconds() < now.seconds() || (expires_at.seconds() == now.seconds()
        && expires_at.subsec_nanos() < now.subsec_nanos()) {
        Err(ErrorView::Conflict("invite expired"@))
    } else {
        Ok(())
    }
}

/// Whether an invitation is addressed to the user: the e-mail addresses
/// agree once lower-cased.
pub open spec fn spec_invite_recipient(user_email: Seq<char>, invite_email: Seq<char>) -> Result<(), ErrorView> {
    if unicode_lowercase(user_email) != unicode_lowercase(invite_email) {
        Err(ErrorView::Forbidden)
    } else {
        Ok(())
    }
}

/// Whether an invitation may be accepted by a user: open, and addressed to
/// the user's e-mail.
pub open spec fn spec_invite_acceptance(
    accepted: bool,
    expires_at: Timestamp,
    now: Timestamp,
    user_email: Seq<char>,
    invite_email: Seq<char>,
) -> Result<(), ErrorView> {
    match spec_invite_open(accepted, expires_at, now) {
        Err(e) => Err(e),
        Ok(()) => spec_invite_recipient(user_email, invite_email),
    }
}

/// Checks that an invitation is open (see `spec_invite_open`); the
/// recipient is checked afterwards, once the user is known.
pub fn check_invite_open(accepted: bool, expires_at: &Timestamp, now: &Timestamp) -> (r: Result<(), ApiError>)
    ensures
        check_view(r) == spec_invite_open(accepted, *expires_at, *now),
{
    if accepted {
        return Err(ApiError::Conflict(owned("invite already used")));
    }
    if expires_at.is_before(now) {
        return Err(ApiError::Conflict(owned("invite expired")));
    }
    Ok(())
}

/// Checks that an invitation is addressed to the user (see
/// `spec_invite_recipient`).
pub fn check_invite_recipient(user_email: &str, invite_email: &str) -> (r: Result<(), ApiError>)
    ensures
        check_view(r) == spec_invite_recipient(user_email@, invite_email@),
{
    let a = to_lowercase(user_email);
    let b = to_lowercase(invite_email);
    if !str_eq(a.as_str(), b.as_str()) {
        return Err(ApiError::Forbidden);
    }
    Ok(())
}

pub fn check_invite_acceptance(
    accepted: bool,
    expires_at: &Timestamp,
    now: &Timestamp,
    user_email: &str,
    invite_email: &str,
) -> (r: Result<(), ApiError>)
    ensures
        check_view(r) == spec_invite_acceptance(accepted, *expires_at, *now, user_email@, invite_email@),
{
    check_invite_open(accepted, expires_at, now)?;
    check_invite_recipient(user_email, invite_email)
}

} // verus!

verus! {

/// An organization never loses its last owner through a removal or a
/// demotion: whenever the guard lets the change of an owner through, there
/// was another owner left.
pub proof fn lemma_last_owner_kept(owner_count: i64)
    ensures
        spec_guard_not_last_owner(Some(OrgRole::Owner), Some(owner_count)) is Ok ==> owner_count
            - 1 >= 1,
        owner_count <= 1 ==> spec_guard_not_last_owner(Some(OrgRole::Owner), Some(owner_count))
            is Err,
{
}

} // verus!
