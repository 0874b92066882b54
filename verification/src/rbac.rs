use vstd::prelude::*;

use crate::error::ApiError;

verus! {

/// Instance-wide role. `Superadmin` exists outside any organization and can
/// manage orgs/users at the deployment level (bootstrap, support, etc).
#[derive(Debug, Clone, Copy, PartialEq, Eq, Structural, PartialOrd, Ord)]
pub enum InstanceRole {
    User,
    Superadmin,
}

/// Role within a single organization (tenant), from least to most
/// privileged.
#[derive(Debug, Clone, Copy, PartialEq, Eq, Structural, PartialOrd, Ord)]
pub enum OrgRole {
    Member,
    Admin,
    Owner,
}

/// Role within a single project, scoped to a member of that project's org,
/// from least to most privileged.
#[derive(Debug, Clone, Copy, PartialEq, Eq, Structural, PartialOrd, Ord)]
pub enum ProjectRole {
    Viewer,
    Contributor,
    Lead,
}

/// Actions gated by RBAC. Every permission decision goes through
/// `OrgRole::can` or `ProjectRole::can`.
#[derive(Debug, Clone, Copy, PartialEq, Eq, Structural)]
pub enum Action {
    ManageOrgSettings,
    ManageOrgMembers,
    CreateProject,
    DeleteProject,
    ViewBoard,
    EditTask,
    DeleteTask,
    ManageProjectMembers,
}

impl Action {
    /// Actions decided by an organization role.
    pub open spec fn is_org_level(self) -> bool {
        match self {
            Action::ManageOrgSettings | Action::ManageOrgMembers | Action::CreateProject
            | Action::DeleteProject => true,
            _ => false,
        }
    }
}

impl OrgRole {
    /// Position in the privilege order `Member < Admin < Owner`.
    pub open spec fn level(self) -> int {
        match self {
            OrgRole::Member => 0,
            OrgRole::Admin => 1,
            OrgRole::Owner => 2,
        }
    }

    /// `self >= other` in the privilege order.
    pub open spec fn at_least(self, other: OrgRole) -> bool {
        self.level() >= other.level()
    }

    pub fn rank(self) -> (r: u8)
        ensures
            r == self.level(),
    {
        match self {
            OrgRole::Member => 0,
            OrgRole::Admin => 1,
            OrgRole::Owner => 2,
        }
    }

    /// `self >= other` in the privilege order.
    pub fn is_at_least(self, other: OrgRole) -> (b: bool)
        ensures
            b == self.at_least(other),
    {
        self.rank() >= other.rank()
    }

    /// What an organization role permits: owners manage settings and delete
    /// projects; admins and above manage members and create projects;
    /// project-level actions are never granted by an organization role.
    pub open spec fn permits(self, action: Action) -> bool {
        match action {
            Action::ManageOrgSettings | Action::DeleteProject => self.at_least(OrgRole::Owner),
            Action::ManageOrgMembers | Action::CreateProject => self.at_least(OrgRole::Admin),
            _ => false,
        }
    }

    pub fn can(self, action: Action) -> (b: bool)
        ensures
            b == self.permits(action),
    {
        match action {
            Action::ManageOrgSettings | Action::DeleteProject => self.is_at_least(OrgRole::Owner),
            Action::ManageOrgMembers | Action::CreateProject => self.is_at_least(OrgRole::Admin),
            _ => false,
        }
    }
}

impl ProjectRole {
    /// Position in the privilege order `Viewer < Contributor < Lead`.
    pub open spec fn level(self) -> int {
        match self {
            ProjectRole::Viewer => 0,
            ProjectRole::Contributor => 1,
            ProjectRole::Lead => 2,
        }
    }

    /// `self >= other` in the privilege order.
    pub open spec fn at_least(self, other: ProjectRole) -> bool {
        self.level() >= other.level()
    }

    pub fn rank(self) -> (r: u8)
        ensures
            r == self.level(),
    {
        match self {
            ProjectRole::Viewer => 0,
            ProjectRole::Contributor => 1,
            ProjectRole::Lead => 2,
        }
    }

    /// `self >= other` in the privilege order.
    pub fn is_at_least(self, other: ProjectRole) -> (b: bool)
        ensures
            b == self.at_least(other),
    {
        self.rank() >= other.rank()
    }

    /// What a project role permits: every member views the board;
    /// contributors and above edit tasks; leads delete tasks and manage
    /// members; organization-level actions are never granted by a project
    /// role.
    pub open spec fn permits(self, action: Action) -> bool {
        match action {
            Action::ViewBoard => true,
            Action::EditTask => self.at_least(ProjectRole::Contributor),
            Action::DeleteTask | Action::ManageProjectMembers => self.at_least(ProjectRole::Lead),
            _ => false,
        }
    }

    pub fn can(self, action: Action) -> (b: bool)
        ensures
            b == self.permits(action),
    {
        match action {
            Action::ViewBoard => true,
            Action::EditTask => self.is_at_least(ProjectRole::Contributor),
            Action::DeleteTask | Action::ManageProjectMembers => self.is_at_least(
                ProjectRole::Lead,
            ),
            _ => false,
        }
    }
}

/// A more privileged organization role can do everything a less privileged
/// one can.
pub proof fn lemma_org_permission_monotone(lower: OrgRole, higher: OrgRole, action: Action)
    requires
        higher.at_least(lower),
        lower.permits(action),
    ensures
        higher.permits(action),
{
}

/// A more privileged project role can do everything a less privileged one
/// can.
pub proof fn lemma_project_permission_monotone(
    lower: ProjectRole,
    higher: ProjectRole,
    action: Action,
)
    requires
        higher.at_least(lower),
        lower.permits(action),
    ensures
        higher.permits(action),
{
}

/// Organization roles decide only organization-level actions, project
/// roles decide only project-level actions: no action is granted by both
/// kinds of role.
pub proof fn lemma_roles_decide_disjoint_actions(org: OrgRole, project: ProjectRole, action: Action)
    ensures
        org.permits(action) ==> action.is_org_level(),
        project.permits(action) ==> !action.is_org_level(),
{
}

/// Every project member, a viewer included, may view the board; an owner
/// may take every organization-level action and a lead every project-level
/// one.
pub proof fn lemma_top_roles_permit_their_level(org: OrgRole, project: ProjectRole, action: Action)
    ensures
        project.permits(Action::ViewBoard),
        action.is_org_level() ==> OrgRole::Owner.permits(action),
        !action.is_org_level() ==> ProjectRole::Lead.permits(action),
{
}

/// An authenticated user, resolved from a valid access token. Carries no
/// org/project context.
#[derive(Debug, Clone, Copy)]
pub struct AuthUser {
    pub user_id: u128,
    pub instance_role: InstanceRole,
}

impl AuthUser {
    pub fn is_superadmin(&self) -> (b: bool)
        ensures
            b == (self.instance_role == InstanceRole::Superadmin),
    {
        match self.instance_role {
            InstanceRole::Superadmin => true,
            InstanceRole::User => false,
        }
    }
}

/// Instance administration is for superadmins only.
pub fn require_superadmin(user: &AuthUser) -> (r: Result<(), ApiError>)
    ensures
        r is Ok <==> user.instance_role == InstanceRole::Superadmin,
        r is Err ==> r == Err::<(), ApiError>(ApiError::Forbidden),
{
    if user.is_superadmin() {
        Ok(())
    } else {
        Err(ApiError::Forbidden)
    }
}

/// The role a user acts with inside an organization: a superadmin is an
/// implicit owner of every org; anyone else needs a membership.
pub open spec fn spec_org_scope_role(is_superadmin: bool, membership: Option<OrgRole>) -> Result<
    OrgRole,
    ApiError,
> {
    if is_superadmin {
        Ok(OrgRole::Owner)
    } else {
        match membership {
            Some(role) => Ok(role),
            None => Err(ApiError::Forbidden),
        }
    }
}

/// Resolves a user's role in an organization from their membership (if
/// any).
pub fn org_scope_role(is_superadmin: bool, membership: Option<OrgRole>) -> (r: Result<
    OrgRole,
    ApiError,
>)
    ensures
        r == spec_org_scope_role(is_superadmin, membership),
{
    if is_superadmin {
        Ok(OrgRole::Owner)
    } else {
        match membership {
            Some(role) => Ok(role),
            None => Err(ApiError::Forbidden),
        }
    }
}

/// A user's effective role on a project: superadmins and org owners/admins
/// are implicit leads; other org members need an explicit project
/// membership; non-members of the org are refused.
pub open spec fn spec_project_role(
    is_superadmin: bool,
    org_membership: Option<OrgRole>,
    project_membership: Option<ProjectRole>,
) -> Result<ProjectRole, ApiError> {
    if is_superadmin {
        Ok(ProjectRole::Lead)
    } else {
        match org_membership {
            None => Err(ApiError::Forbidden),
            Some(org_role) => if org_role.at_least(OrgRole::Admin) {
                Ok(ProjectRole::Lead)
            } else {
                match project_membership {
                    Some(role) => Ok(role),
                    None => Err(ApiError::Forbidden),
                }
            },
        }
    }
}

/// Resolves a user's effective role on a project from their org membership
/// and their project membership (each `None` where there is none).
pub fn resolve_project_role(
    is_superadmin: bool,
    org_membership: Option<OrgRole>,
    project_membership: Option<ProjectRole>,
) -> (r: Result<ProjectRole, ApiError>)
    ensures
        r == spec_project_role(is_superadmin, org_membership, project_membership),
{
    if is_superadmin {
        return Ok(ProjectRole::Lead);
    }
    let org_role = match org_membership {
        Some(role) => role,
        None => return Err(ApiError::Forbidden),
    };
    if org_role.is_at_least(OrgRole::Admin) {
        return Ok(ProjectRole::Lead);
    }
    match project_membership {
        Some(role) => Ok(role),
        None => Err(ApiError::Forbidden),
    }
}

/// The effective project role is never below an explicit project
/// membership; superadmins and org owners/admins are always leads; a user
/// outside the organization is refused.
pub proof fn lemma_project_role_never_below_membership(
    is_superadmin: bool,
    org_membership: Option<OrgRole>,
    project_membership: Option<ProjectRole>,
)
    ensures
        spec_project_role(is_superadmin, org_membership, project_membership) matches Ok(role) ==> (
        project_membership matches Some(m) ==> role.at_least(m)),
        is_superadmin ==> spec_project_role(is_superadmin, org_membership, project_membership)
            == Ok::<ProjectRole, ApiError>(ProjectRole::Lead),
        (org_membership matches Some(o) && o.at_least(OrgRole::Admin)) ==> spec_project_role(
            is_superadmin,
            org_membership,
            project_membership,
        ) == Ok::<ProjectRole, ApiError>(ProjectRole::Lead),
        (!is_superadmin && org_membership is None) ==> spec_project_role(
            is_superadmin,
            org_membership,
            project_membership,
        ) == Err::<ProjectRole, ApiError>(ApiError::Forbidden),
{
}

} // verus!

verus! {

/// A project-scoped request may take `action` when the user is a
/// superadmin or their project role permits it; otherwise it is forbidden.
pub fn authorize(is_superadmin: bool, role: ProjectRole, action: Action) -> (r: Result<(), ApiError>)
    ensures
        r is Ok <==> (is_superadmin || role.permits(action)),
        r is Err ==> r == Err::<(), ApiError>(ApiError::Forbidden),
{
    if is_superadmin || role.can(action) {
        Ok(())
    } else {
        Err(ApiError::Forbidden)
    }
}

/// An org-scoped request may take `action` when the user is a superadmin
/// or their organization role permits it; otherwise it is forbidden.
pub fn authorize_org(is_superadmin: bool, role: OrgRole, action: Action) -> (r: Result<(), ApiError>)
    ensures
        r is Ok <==> (is_superadmin || role.permits(action)),
        r is Err ==> r == Err::<(), ApiError>(ApiError::Forbidden),
{
    if is_superadmin || role.can(action) {
        Ok(())
    } else {
        Err(ApiError::Forbidden)
    }
}

} // verus!
