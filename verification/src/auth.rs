//! Accounts and sessions: registration rules, e-mail normalization, token
//! claims and how a request's bearer token is turned into a user.
use vstd::prelude::*;

use crate::error::ApiError;
use crate::rbac::{AuthUser, InstanceRole};
use crate::text::{
    all_ascii, ascii_lower, contains_char, lemma_trim_keeps_ascii, owned, to_lowercase, trim, trimmed,
    unicode_lowercase,
};
use crate::time::{chrono_shifted, Timestamp};

verus! {

/// What `str::len` returns for text `s`: the number of bytes of its UTF-8
/// encoding.
pub open spec fn utf8_len(s: Seq<char>) -> int {
    vstd::utf8::encode_utf8(s).len() as int
}

pub struct RegisterRequest {
    pub email: String,
    pub password: String,
    pub display_name: String,
}

/// A superadmin's request to change a user's instance role.
pub struct UpdateInstanceRoleRequest {
    pub instance_role: InstanceRole,
}

pub struct LoginRequest {
    pub email: String,
    pub password: String,
}

/// The canonical form of an e-mail address: trimmed and lower-cased.
pub open spec fn spec_normalize_email(email: Seq<char>) -> Seq<char> {
    unicode_lowercase(trim(email))
}

pub fn normalize_email(email: &str) -> (r: String)
    ensures
        r@ == spec_normalize_email(email@),
        all_ascii(email@) ==> r@ == ascii_lower(trim(email@)),
{
    let t = trimmed(email);
    proof {
        if all_ascii(email@) {
            lemma_trim_keeps_ascii(email@);
        }
    }
    to_lowercase(t.as_str())
}

/// What registration accepts: the normalized e-mail (it must hold an `@`
/// and be at most 320 bytes) and the trimmed display name (non-empty),
/// with a password of at least 8 bytes; the checks run in that order.
pub open spec fn spec_check_registration(email: Seq<char>, password: Seq<char>, display_name: Seq<
    char,
>) -> Result<(Seq<char>, Seq<char>), Seq<char>> {
    let e = spec_normalize_email(email);
    if !e.contains('@') || utf8_len(e) > 320 {
        Err("invalid email"@)
    } else if utf8_len(password) < 8 {
        Err("password must be at least 8 characters"@)
    } else if trim(display_name).len() == 0 {
        Err("display name is required"@)
    } else {
        Ok((e, trim(display_name)))
    }
}

/// Checks a registration: on success the normalized e-mail and the trimmed
/// display name the account is created with; otherwise the bad request
/// that answers it.
pub fn check_registration(req: &RegisterRequest) -> (r: Result<(String, String), ApiError>)
    ensures
        match spec_check_registration(req.email@, req.password@, req.display_name@) {
            Ok((e, d)) => r matches Ok((re, rd)) && re@ == e && rd@ == d,
            Err(msg) => r matches Err(ApiError::BadRequest(m)) && m@ == msg,
        },
{
    let email = normalize_email(req.email.as_str());
    if !contains_char(email.as_str(), '@') || email.as_str().as_bytes().len() > 320 {
        return Err(ApiError::BadRequest(owned("invalid email")));
    }
    if req.password.as_str().as_bytes().len() < 8 {
        return Err(ApiError::BadRequest(owned("password must be at least 8 characters")));
    }
    let display_name = trimmed(req.display_name.as_str());
    if display_name.as_str().is_empty() {
        return Err(ApiError::BadRequest(owned("display name is required")));
    }
    Ok((email, display_name))
}

/// The bootstrap administrator's password must be at least 8 bytes long.
pub fn check_bootstrap_password(password: &str) -> (r: Result<(), String>)
    ensures
        match r {
            Ok(()) => utf8_len(password@) >= 8,
            Err(m) => utf8_len(password@) < 8 && m@
                == "BOOTSTRAP_ADMIN_PASSWORD must be at least 8 characters"@,
        },
{
    if password.as_bytes().len() < 8 {
        Err(owned("BOOTSTRAP_ADMIN_PASSWORD must be at least 8 characters"))
    } else {
        Ok(())
    }
}

/// The next step of bootstrapping the first superadmin at start-up, which
/// alternates with the database: finish, ask whether a superadmin exists,
/// refuse the configuration, look the user up by e-mail, promote that
/// user, or create one.
pub enum BootstrapAction {
    Done,
    CheckSuperadmin,
    Refuse(String),
    FindUser(String),
    Promote(u128),
    Create(String),
}

/// A bootstrap step seen as a value.
pub ghost enum BootstrapStep {
    Done,
    CheckSuperadmin,
    Refuse(Seq<char>),
    FindUser(Seq<char>),
    Promote(u128),
    Create(Seq<char>),
}

impl View for BootstrapAction {
    type V = BootstrapStep;

    open spec fn view(&self) -> BootstrapStep {
        match self {
            BootstrapAction::Done => BootstrapStep::Done,
            BootstrapAction::CheckSuperadmin => BootstrapStep::CheckSuperadmin,
            BootstrapAction::Refuse(m) => BootstrapStep::Refuse(m@),
            BootstrapAction::FindUser(e) => BootstrapStep::FindUser(e@),
            BootstrapAction::Promote(id) => BootstrapStep::Promote(*id),
            BootstrapAction::Create(e) => BootstrapStep::Create(e@),
        }
    }
}

/// Bootstrapping starts only when both the e-mail and the password are
/// configured; it then asks whether a superadmin exists.
pub open spec fn spec_bootstrap_start(email_given: bool, password_given: bool) -> BootstrapStep {
    if email_given && password_given {
        BootstrapStep::CheckSuperadmin
    } else {
        BootstrapStep::Done
    }
}

/// Once a superadmin exists there is nothing to do; otherwise the password
/// must be at least 8 bytes, and the user is looked up by the normalized
/// e-mail.
pub open spec fn spec_bootstrap_after_check(email: Seq<char>, password: Seq<char>, superadmin_exists: bool) -> BootstrapStep {
    if superadmin_exists {
        BootstrapStep::Done
    } else if utf8_len(password) < 8 {
        BootstrapStep::Refuse("BOOTSTRAP_ADMIN_PASSWORD must be at least 8 characters"@)
    } else {
        BootstrapStep::FindUser(spec_normalize_email(email))
    }
}

/// A user found by the e-mail is promoted; otherwise one is created with
/// that e-mail.
pub open spec fn spec_bootstrap_after_lookup(email: Seq<char>, existing: Option<u128>) -> BootstrapStep {
    match existing {
        Some(id) => BootstrapStep::Promote(id),
        None => BootstrapStep::Create(email),
    }
}

/// How a whole bootstrap run ends, given what the database answers (whether
/// a superadmin exists, and the user found by e-mail if any).
pub open spec fn spec_bootstrap_run(
    email: Option<Seq<char>>,
    password: Option<Seq<char>>,
    superadmin_exists: bool,
    existing: Option<u128>,
) -> BootstrapStep {
    match spec_bootstrap_start(email is Some, password is Some) {
        BootstrapStep::CheckSuperadmin => match spec_bootstrap_after_check(
            email->0,
            password->0,
            superadmin_exists,
        ) {
            BootstrapStep::FindUser(e) => spec_bootstrap_after_lookup(e, existing),
            other => other,
        },
        other => other,
    }
}

/// The first step, from the configured e-mail and password.
pub fn bootstrap_start(email: Option<&str>, password: Option<&str>) -> (a: BootstrapAction)
    ensures
        a@ == spec_bootstrap_start(email is Some, password is Some),
        (email is None || password is None) ==> a is Done,
        (email is Some && password is Some) ==> a is CheckSuperadmin,
{
    if email.is_some() && password.is_some() {
        BootstrapAction::CheckSuperadmin
    } else {
        BootstrapAction::Done
    }
}

/// The step after asking whether a superadmin exists.
pub fn bootstrap_after_check(email: &str, password: &str, superadmin_exists: bool) -> (a: BootstrapAction)
    ensures
        a@ == spec_bootstrap_after_check(email@, password@, superadmin_exists),
        superadmin_exists ==> a is Done,
        !superadmin_exists && utf8_len(password@) < 8 ==> (a matches BootstrapAction::Refuse(m) && m@
            == "BOOTSTRAP_ADMIN_PASSWORD must be at least 8 characters"@),
        !superadmin_exists && utf8_len(password@) >= 8 ==> (a matches BootstrapAction::FindUser(e)
            && e@ == spec_normalize_email(email@)),
{
    if superadmin_exists {
        return BootstrapAction::Done;
    }
    match check_bootstrap_password(password) {
        Err(m) => BootstrapAction::Refuse(m),
        Ok(()) => BootstrapAction::FindUser(normalize_email(email)),
    }
}

/// The step after looking the user up by e-mail.
pub fn bootstrap_after_lookup(email: &str, existing: Option<u128>) -> (a: BootstrapAction)
    ensures
        a@ == spec_bootstrap_after_lookup(email@, existing),
        existing matches Some(id) ==> a == BootstrapAction::Promote(id),
        existing is None ==> (a matches BootstrapAction::Create(e) && e@ == email@),
{
    match existing {
        Some(id) => BootstrapAction::Promote(id),
        None => BootstrapAction::Create(owned(email)),
    }
}

/// Bootstrapping is safe to leave configured: once a superadmin exists a
/// run ends with nothing done, whatever the e-mail and password. Before
/// that, a run with both configured and a password of at least 8 bytes
/// promotes the user with the normalized e-mail, or creates one.
pub proof fn lemma_bootstrap_noop_once_superadmin(
    email: Option<Seq<char>>,
    password: Option<Seq<char>>,
    existing: Option<u128>,
)
    ensures
        spec_bootstrap_run(email, password, true, existing) == BootstrapStep::Done,
        (email matches Some(e) && password matches Some(p) && utf8_len(p) >= 8) ==> spec_bootstrap_run(
            email,
            password,
            false,
            existing,
        ) == spec_bootstrap_after_lookup(spec_normalize_email(email->0), existing),
{
}

/// Which kind of session token a set of claims belongs to.
#[derive(Debug, Clone, Copy, PartialEq, Eq, Structural)]
pub enum TokenType {
    Access,
    Refresh,
}

/// The claims a session token carries.
#[derive(Debug, Clone, Copy)]
pub struct Claims {
    pub sub: u128,
    pub typ: TokenType,
    pub role: Option<InstanceRole>,
    pub iat: i64,
    pub exp: i64,
}

/// The claims of an access token issued at `now` for `ttl_minutes`: the
/// user, their instance role, issued-at and expiry in Unix seconds. `None`
/// where chrono cannot represent the expiry (minutes overflowing, or an
/// instant out of its range).
pub open spec fn spec_access_claims(user_id: u128, role: InstanceRole, now: Timestamp, ttl_minutes: i64) -> Option<Claims> {
    let delta = ttl_minutes * 60;
    if delta < i64::MIN || delta > i64::MAX {
        None
    } else {
        match chrono_shifted(now.seconds(), now.subsec_nanos(), delta as i64) {
            Some(p) => Some(
                Claims {
                    sub: user_id,
                    typ: TokenType::Access,
                    role: Some(role),
                    iat: now.seconds(),
                    exp: p.0,
                },
            ),
            None => None,
        }
    }
}

/// The claims of a refresh token issued at `now` for `ttl_days`: no role.
pub open spec fn spec_refresh_claims(user_id: u128, now: Timestamp, ttl_days: i64) -> Option<Claims> {
    let delta = ttl_days * 86_400;
    if delta < i64::MIN || delta > i64::MAX {
        None
    } else {
        match chrono_shifted(now.seconds(), now.subsec_nanos(), delta as i64) {
            Some(p) => Some(
                Claims {
                    sub: user_id,
                    typ: TokenType::Refresh,
                    role: None,
                    iat: now.seconds(),
                    exp: p.0,
                },
            ),
            None => None,
        }
    }
}

fn shifted_seconds(now: &Timestamp, delta: i64) -> (r: Option<i64>)
    ensures
        r == (match chrono_shifted(now.seconds(), now.subsec_nanos(), delta) {
            Some(p) => Some(p.0),
            None => None::<i64>,
        }),
        now.subsec_nanos() < 1_000_000_000 ==> (r matches Some(e) ==> e == now.seconds() + delta),
{
    match crate::time::shift_seconds_of(now, delta) {
        Some(p) => Some(p.0),
        None => None,
    }
}

/// The claims of a new access token (see `spec_access_claims`).
pub fn access_claims(user_id: u128, role: InstanceRole, now: &Timestamp, ttl_minutes: i64) -> (r: Option<Claims>)
    ensures
        r == spec_access_claims(user_id, role, *now, ttl_minutes),
        now.subsec_nanos() < 1_000_000_000 ==> (r matches Some(c) ==> c.exp == c.iat + ttl_minutes * 60),
{
    let delta = match ttl_minutes.checked_mul(60) {
        Some(d) => d,
        None => return None,
    };
    match shifted_seconds(now, delta) {
        Some(exp) => Some(
            Claims {
                sub: user_id,
                typ: TokenType::Access,
                role: Some(role),
                iat: now.secs(),
                exp,
            },
        ),
        None => None,
    }
}

/// The claims of a new refresh token (see `spec_refresh_claims`).
pub fn refresh_claims(user_id: u128, now: &Timestamp, ttl_days: i64) -> (r: Option<Claims>)
    ensures
        r == spec_refresh_claims(user_id, *now, ttl_days),
        now.subsec_nanos() < 1_000_000_000 ==> (r matches Some(c) ==> c.exp == c.iat + ttl_days * 86_400),
{
    let delta = match ttl_days.checked_mul(86_400) {
        Some(d) => d,
        None => return None,
    };
    match shifted_seconds(now, delta) {
        Some(exp) => Some(
            Claims { sub: user_id, typ: TokenType::Refresh, role: None, iat: now.secs(), exp },
        ),
        None => None,
    }
}

/// The token in an `Authorization` header value: what follows `Bearer `.
pub open spec fn spec_bearer_token(header: Seq<char>) -> Option<Seq<char>> {
    if header.len() >= 7 && header.take(7) == "Bearer "@ {
        Some(header.skip(7))
    } else {
        None
    }
}

pub fn bearer_token(header: &str) -> (r: Option<String>)
    ensures
        match spec_bearer_token(header@) {
            Some(t) => r matches Some(s) && s@ == t,
            None => r is None,
        },
{
    let v = crate::text::chars_of(header);
    let prefix = crate::text::chars_of("Bearer ");
    proof {
        reveal_strlit("Bearer ");
    }
    if v.len() < 7 {
        return None;
    }
    let mut i: usize = 0;
    while i < 7
        invariant
            v@ == header@,
            prefix@ == "Bearer "@,
            prefix@.len() == 7,
            v@.len() >= 7,
            i <= 7,
            forall|j: int| 0 <= j < i ==> v@[j] == prefix@[j],
        decreases 7 - i,
    {
        if v[i] != prefix[i] {
            proof {
                assert(header@.take(7)[i as int] != "Bearer "@[i as int]);
            }
            return None;
        }
        i = i + 1;
    }
    proof {
        assert(header@.take(7) =~= "Bearer "@);
        assert(v@.subrange(7, v@.len() as int) =~= header@.skip(7));
    }
    Some(crate::text::string_from_range(&v, 7, v.len()))
}

/// The user an access token's claims authenticate: a refresh token, or an
/// access token without a role, is refused.
pub open spec fn spec_auth_user(claims: Claims) -> Result<AuthUser, ApiError> {
    if claims.typ != TokenType::Access {
        Err(ApiError::Unauthorized)
    } else {
        match claims.role {
            Some(role) => Ok(AuthUser { user_id: claims.sub, instance_role: role }),
            None => Err(ApiError::Unauthorized),
        }
    }
}

pub fn auth_user_from_claims(claims: &Claims) -> (r: Result<AuthUser, ApiError>)
    ensures
        r == spec_auth_user(*claims),
{
    if claims.typ != TokenType::Access {
        return Err(ApiError::Unauthorized);
    }
    match claims.role {
        Some(role) => Ok(AuthUser { user_id: claims.sub, instance_role: role }),
        None => Err(ApiError::Unauthorized),
    }
}

/// The user a refresh token's claims name; any other token is refused.
pub fn refresh_subject(claims: &Claims) -> (r: Result<u128, ApiError>)
    ensures
        r == (if claims.typ == TokenType::Refresh {
            Ok::<u128, ApiError>(claims.sub)
        } else {
            Err(ApiError::Unauthorized)
        }),
{
    if claims.typ != TokenType::Refresh {
        return Err(ApiError::Unauthorized);
    }
    Ok(claims.sub)
}

/// A session's tokens authenticate only as what they were issued for: the
/// claims of an access token yield exactly the user and role they were
/// issued with, and a refresh token never authenticates a request.
pub proof fn lemma_tokens_authenticate_as_issued(user_id: u128, role: InstanceRole, now: Timestamp, ttl_minutes: i64, ttl_days: i64)
    ensures
        spec_access_claims(user_id, role, now, ttl_minutes) matches Some(c) ==> spec_auth_user(c)
            == Ok::<AuthUser, ApiError>(AuthUser { user_id, instance_role: role }),
        spec_refresh_claims(user_id, now, ttl_days) matches Some(c) ==> spec_auth_user(c)
            == Err::<AuthUser, ApiError>(ApiError::Unauthorized),
{
}

/// Instance-role changes go through a superadmin, who cannot remove their
/// own superadmin role.
pub fn check_instance_role_change(auth: &AuthUser, target_user: u128, new_role: InstanceRole) -> (r: Result<(), ApiError>)
    ensures
        auth.instance_role != InstanceRole::Superadmin ==> r == Err::<(), ApiError>(
            ApiError::Forbidden,
        ),
        auth.instance_role == InstanceRole::Superadmin && target_user == auth.user_id && new_role
            != InstanceRole::Superadmin ==> (r matches Err(ApiError::Conflict(m)) && m@
            == "cannot remove your own superadmin role"@),
        auth.instance_role == InstanceRole::Superadmin && !(target_user == auth.user_id && new_role
            != InstanceRole::Superadmin) ==> r is Ok,
{
    if !auth.is_superadmin() {
        return Err(ApiError::Forbidden);
    }
    if target_user == auth.user_id && new_role != InstanceRole::Superadmin {
        return Err(ApiError::Conflict(owned("cannot remove your own superadmin role")));
    }
    Ok(())
}

} // verus!

verus! {

/// The password rule is a lower bound only: with a usable e-mail and a
/// display name, any password of at least 8 bytes is accepted, the account
/// being created with the normalized e-mail and the trimmed name; the
/// password is refused only when shorter; and a longer password is never
/// refused where a shorter one was accepted.
pub proof fn lemma_registration_password_lower_bound(
    email: Seq<char>,
    password: Seq<char>,
    longer: Seq<char>,
    display_name: Seq<char>,
)
    ensures
        spec_normalize_email(email).contains('@') && utf8_len(spec_normalize_email(email)) <= 320
            && trim(display_name).len() > 0 && utf8_len(password) >= 8 ==> spec_check_registration(
            email,
            password,
            display_name,
        ) == Ok::<(Seq<char>, Seq<char>), Seq<char>>((spec_normalize_email(email), trim(display_name))),
        spec_check_registration(email, password, display_name) == Err::<(Seq<char>, Seq<char>), Seq<char>>(
            "password must be at least 8 characters"@,
        ) ==> utf8_len(password) < 8,
        spec_check_registration(email, password, display_name) is Ok && utf8_len(longer) >= utf8_len(
            password,
        ) ==> spec_check_registration(email, longer, display_name) is Ok,
{
    reveal_strlit("password must be at least 8 characters");
    reveal_strlit("invalid email");
    reveal_strlit("display name is required");
    assert("password must be at least 8 characters"@ != "invalid email"@) by {
        assert("password must be at least 8 characters"@[0] != "invalid email"@[0]);
    }
    assert("password must be at least 8 characters"@ != "display name is required"@) by {
        assert("password must be at least 8 characters"@[0] != "display name is required"@[0]);
    }
}

} // verus!
