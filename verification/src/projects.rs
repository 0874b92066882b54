//! Projects within an organization: keys, creation, membership and tags.
use vstd::prelude::*;

use crate::auth::utf8_len;
use crate::error::{check_view, text_view, ApiError, ErrorView};
use crate::orgs::{check_name, spec_required_name};
use crate::rbac::{authorize, authorize_org, Action, OrgRole, ProjectRole};
use crate::text::{
    all_ascii, ascii_upper, char_is_ascii_alphabetic, char_is_ascii_alphanumeric, chars_of, is_ascii_alphabetic,
    is_ascii_alphanumeric, lemma_trim_keeps_ascii, owned, to_uppercase, trim, trimmed, unicode_uppercase,
};

verus! {

pub struct CreateProjectRequest {
    pub key: String,
    pub name: String,
    pub description: Option<String>,
}

pub struct CreateTagRequest {
    pub name: String,
    pub color: String,
}

/// Whether a project key is valid: 2 to 10 bytes, ASCII letters and digits
/// only, starting with a letter.
pub open spec fn valid_key(key: Seq<char>) -> bool {
    &&& 2 <= utf8_len(key) <= 10
    &&& forall|i: int| 0 <= i < key.len() ==> is_ascii_alphanumeric(#[trigger] key[i])
    &&& key.len() > 0 && is_ascii_alphabetic(key[0])
}

/// The key a project is created with: the raw key trimmed and upper-cased.
pub open spec fn spec_normalize_key(raw: Seq<char>) -> Result<Seq<char>, ErrorView> {
    spec_check_key(unicode_uppercase(trim(raw)))
}

/// An upper-cased key, accepted when valid.
pub open spec fn spec_check_key(key: Seq<char>) -> Result<Seq<char>, ErrorView> {
    if valid_key(key) {
        Ok(key)
    } else {
        Err(ErrorView::BadRequest("key must be 2-10 letters/digits, starting with a letter"@))
    }
}

pub fn normalize_key(raw: &str) -> (r: Result<String, ApiError>)
    ensures
        text_view(r) == spec_normalize_key(raw@),
        all_ascii(raw@) ==> text_view(r) == spec_check_key(ascii_upper(trim(raw@))),
{
    let t = trimmed(raw);
    proof {
        if all_ascii(raw@) {
            lemma_trim_keeps_ascii(raw@);
        }
    }
    let key = to_uppercase(t.as_str());
    let n = key.as_str().as_bytes().len();
    let chars = chars_of(key.as_str());
    let mut all_alnum = true;
    let mut i: usize = 0;
    while i < chars.len()
        invariant
            chars@ == key@,
            i <= chars@.len(),
            all_alnum == (forall|j: int| 0 <= j < i ==> is_ascii_alphanumeric(#[trigger] key@[j])),
        decreases chars.len() - i,
    {
        if !char_is_ascii_alphanumeric(chars[i]) {
            all_alnum = false;
        }
        i = i + 1;
    }
    let starts_alpha = chars.len() > 0 && char_is_ascii_alphabetic(chars[0]);
    let valid = 2 <= n && n <= 10 && all_alnum && starts_alpha;
    if !valid {
        return Err(
            ApiError::BadRequest(owned("key must be 2-10 letters/digits, starting with a letter")),
        );
    }
    Ok(key)
}

/// Creating a project: by superadmins and those whose org role permits it;
/// the trimmed name must not be empty and the key must be valid (checked
/// in that order). On success, the name and the key.
pub fn check_new_project(is_superadmin: bool, role: OrgRole, req: &CreateProjectRequest) -> (r: Result<(String, String), ApiError>)
    ensures
        match r {
            Ok((name, key)) => (is_superadmin || role.permits(Action::CreateProject))
                && spec_required_name(req.name@) == Ok::<Seq<char>, ErrorView>(name@)
                && spec_normalize_key(req.key@) == Ok::<Seq<char>, ErrorView>(key@),
            Err(e) => if !(is_superadmin || role.permits(Action::CreateProject)) {
                e@ == ErrorView::Forbidden
            } else if spec_required_name(req.name@) is Err {
                spec_required_name(req.name@) == Err::<Seq<char>, ErrorView>(e@)
            } else {
                spec_normalize_key(req.key@) == Err::<Seq<char>, ErrorView>(e@)
            },
        },
{
    authorize_org(is_superadmin, role, Action::CreateProject)?;
    let name = check_name(req.name.as_str())?;
    let key = normalize_key(req.key.as_str())?;
    Ok((name, key))
}

/// Org owners and admins (and superadmins) see every project of the org;
/// other members only the projects they belong to.
pub fn sees_all_projects(is_superadmin: bool, role: OrgRole) -> (b: bool)
    ensures
        b == (is_superadmin || role.at_least(OrgRole::Admin)),
{
    is_superadmin || role.is_at_least(OrgRole::Admin)
}

/// Adding a project member: by those who manage project members, and only
/// a member of the organization can be added.
pub fn check_add_member(is_superadmin: bool, role: ProjectRole, target_in_org: bool) -> (r: Result<(), ApiError>)
    ensures
        check_view(r) == (if !(is_superadmin || role.permits(Action::ManageProjectMembers)) {
            Err(ErrorView::Forbidden)
        } else if !target_in_org {
            Err(ErrorView::BadRequest("user is not a member of this organization"@))
        } else {
            Ok::<(), ErrorView>(())
        }),
{
    authorize(is_superadmin, role, Action::ManageProjectMembers)?;
    if !target_in_org {
        return Err(ApiError::BadRequest(owned("user is not a member of this organization")));
    }
    Ok(())
}

/// The color a tag gets when none is given.
pub fn default_tag_color() -> (r: String)
    ensures
        r@ == "#6b7280"@,
{
    owned("#6b7280")
}

/// Creating a tag: by those who may edit tasks; the trimmed name must not
/// be empty. On success, the name.
pub fn check_new_tag(is_superadmin: bool, role: ProjectRole, req: &CreateTagRequest) -> (r: Result<String, ApiError>)
    ensures
        text_view(r) == (if !(is_superadmin || role.permits(Action::EditTask)) {
            Err(ErrorView::Forbidden)
        } else {
            spec_required_name(req.name@)
        }),
{
    authorize(is_superadmin, role, Action::EditTask)?;
    check_name(req.name.as_str())
}

} // verus!
