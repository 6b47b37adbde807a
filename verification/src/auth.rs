//! Who may do what: the claims a token carries and the permissions that the
//! operations ask for.

use vstd::prelude::*;
use vstd::std_specs::convert::{FromSpec, FromSpecImpl, TryFromSpec, TryFromSpecImpl};
use std::marker::PhantomData;
use crate::models::User;
use crate::password::{argon2_verdict, verify_password};

verus! {

/// What a token says of its bearer.
#[derive(Debug, PartialEq, Eq)]
pub struct ApiClaims {
    pub login: String,
    pub perm_users: bool,
    pub perm_tags: bool,
    pub perm_items: bool,
    pub perm_action_inspect: bool,
    pub perm_action_lend: bool,
}

impl From<User> for ApiClaims {
    /// The claims of a user: the login and the permissions of the account.
    fn from(value: User) -> (claims: ApiClaims) {
        ApiClaims {
            login: value.login,
            perm_users: value.perm_users,
            perm_action_lend: value.perm_action_lend,
            perm_action_inspect: value.perm_action_inspect,
            perm_tags: value.perm_tags,
            perm_items: value.perm_items,
        }
    }
}

impl FromSpecImpl<User> for ApiClaims {
    open spec fn obeys_from_spec() -> bool {
        true
    }

    open spec fn from_spec(value: User) -> ApiClaims {
        ApiClaims {
            login: value.login,
            perm_users: value.perm_users,
            perm_tags: value.perm_tags,
            perm_items: value.perm_items,
            perm_action_inspect: value.perm_action_inspect,
            perm_action_lend: value.perm_action_lend,
        }
    }
}

impl Clone for ApiClaims {
    fn clone(&self) -> (copy: Self)
        ensures
            copy == *self,
    {
        ApiClaims {
            login: self.login.clone(),
            perm_users: self.perm_users,
            perm_tags: self.perm_tags,
            perm_items: self.perm_items,
            perm_action_inspect: self.perm_action_inspect,
            perm_action_lend: self.perm_action_lend,
        }
    }
}

impl ApiClaims {
    /// Whether the claims are those of the account `user`: an account is
    /// known by its login.
    pub fn is_account(&self, user: &User) -> (same: bool)
        ensures
            same == (self.login@ == user.login@),
    {
        self.login == user.login
    }
}

/// Why a login was refused.
#[derive(Debug, Clone, Copy, PartialEq, Eq, Structural)]
pub enum LoginError {
    /// The account is disabled
    Disabled,
    /// What is stored as the hash of the account's password is no hash
    CorruptHash,
    /// The password is not the account's
    WrongPassword,
}

/// What a login to the account `user` gives, where `verdict` is what the
/// check of the password against the stored hash gave: the claims of the
/// account where it is enabled and the password is its own.
pub open spec fn login_outcome(user: User, verdict: Option<bool>) -> Result<ApiClaims, LoginError> {
    if !user.is_active {
        Err(LoginError::Disabled)
    } else {
        match verdict {
            None => Err(LoginError::CorruptHash),
            Some(false) => Err(LoginError::WrongPassword),
            Some(true) => Ok(<ApiClaims as FromSpec<User>>::from_spec(user)),
        }
    }
}

/// Decides a login to the account `user` from what the check of the password
/// against the stored hash gave.
pub fn decide_login(user: User, verdict: Option<bool>) -> (result: Result<ApiClaims, LoginError>)
    ensures
        result == login_outcome(user, verdict),
{
    if !user.is_active {
        return Err(LoginError::Disabled);
    }
    match verdict {
        None => Err(LoginError::CorruptHash),
        Some(false) => Err(LoginError::WrongPassword),
        Some(true) => Ok(ApiClaims::from(user)),
    }
}

/// Logs in to the account `user` with `password`: checks the password
/// against the hash that the account stores and gives the claims of the
/// account where it passes. A disabled account is refused whatever the
/// password.
pub fn login(user: User, password: &str) -> (result: Result<ApiClaims, LoginError>)
    ensures
        result == login_outcome(user, argon2_verdict(password@, user.password@)),
{
    if !user.is_active {
        return Err(LoginError::Disabled);
    }
    let verdict = verify_password(password, user.password.as_str());
    decide_login(user, verdict)
}

/// Why a request was not let through.
#[derive(Debug, Clone, Copy, PartialEq, Eq, Structural)]
pub enum AuthError {
    /// The token is missing, malformed, expired or not signed by this server
    InvalidToken,
    /// The bearer lacks the permission that the operation asks for
    MissingPermission,
}

impl AuthError {
    /// The HTTP status that reports the error.
    pub open spec fn spec_status_code(self) -> u16 {
        match self {
            AuthError::InvalidToken => 400,
            AuthError::MissingPermission => 403,
        }
    }

    /// The text that reports the error.
    pub open spec fn spec_message(self) -> Seq<char> {
        match self {
            AuthError::InvalidToken => "Invalid token"@,
            AuthError::MissingPermission => "Missing permission"@,
        }
    }

    /// The HTTP status that reports the error: 400 for a token that is not
    /// valid, 403 for a permission that is missing.
    #[verifier::when_used_as_spec(spec_status_code)]
    pub fn status_code(self) -> (code: u16)
        ensures
            code == self.spec_status_code(),
    {
        match self {
            AuthError::InvalidToken => 400,
            AuthError::MissingPermission => 403,
        }
    }

    /// The text that reports the error.
    pub fn message(self) -> (text: &'static str)
        ensures
            text@ == self.spec_message(),
    {
        match self {
            AuthError::InvalidToken => "Invalid token",
            AuthError::MissingPermission => "Missing permission",
        }
    }
}

/// A permission that an operation asks of the bearer's claims.
pub trait ClaimPermission {
    /// Whether the claims hold the permission.
    spec fn grants(claims: ApiClaims) -> bool;

    fn check(claims: &ApiClaims) -> (granted: bool)
        ensures
            granted == Self::grants(*claims),
    ;
}

/// Asks nothing: every bearer of a valid token passes.
#[derive(Debug, Clone, Copy, Default)]
pub struct NoPermission;

/// Asks for the permission to manage items.
#[derive(Debug, Clone, Copy, Default)]
pub struct ManageItems;

/// Asks for the permission to manage users.
#[derive(Debug, Clone, Copy, Default)]
pub struct ManageUsers;

/// Asks for the permission to manage tags.
#[derive(Debug, Clone, Copy, Default)]
pub struct ManageTags;

/// Asks for the permission to lend items.
#[derive(Debug, Clone, Copy, Default)]
pub struct LendItems;

/// Asks for the permission to inspect items.
#[derive(Debug, Clone, Copy, Default)]
pub struct InspectItems;

impl ClaimPermission for NoPermission {
    open spec fn grants(claims: ApiClaims) -> bool {
        true
    }

    fn check(_claims: &ApiClaims) -> (granted: bool) {
        true
    }
}

impl ClaimPermission for ManageItems {
    open spec fn grants(claims: ApiClaims) -> bool {
        claims.perm_items
    }

    fn check(claims: &ApiClaims) -> (granted: bool) {
        claims.perm_items
    }
}

impl ClaimPermission for ManageUsers {
    open spec fn grants(claims: ApiClaims) -> bool {
        claims.perm_users
    }

    fn check(claims: &ApiClaims) -> (granted: bool) {
        claims.perm_users
    }
}

impl ClaimPermission for ManageTags {
    open spec fn grants(claims: ApiClaims) -> bool {
        claims.perm_tags
    }

    fn check(claims: &ApiClaims) -> (granted: bool) {
        claims.perm_tags
    }
}

impl ClaimPermission for LendItems {
    open spec fn grants(claims: ApiClaims) -> bool {
        claims.perm_action_lend
    }

    fn check(claims: &ApiClaims) -> (granted: bool) {
        claims.perm_action_lend
    }
}

impl ClaimPermission for InspectItems {
    open spec fn grants(claims: ApiClaims) -> bool {
        claims.perm_action_inspect
    }

    fn check(claims: &ApiClaims) -> (granted: bool) {
        claims.perm_action_inspect
    }
}

/// A bearer whose claims hold the permission `P`. The only way to one is
/// through the check of `P`.
pub struct AuthenticatedUser<P: ClaimPermission> {
    claims: ApiClaims,
    phantom: PhantomData<P>,
}

impl<P: ClaimPermission> View for AuthenticatedUser<P> {
    type V = ApiClaims;

    /// The claims of the bearer.
    closed spec fn view(&self) -> ApiClaims {
        self.claims
    }
}

impl<P: ClaimPermission> AuthenticatedUser<P> {
    #[verifier::type_invariant]
    spec fn permitted(&self) -> bool {
        P::grants(self.claims)
    }

    /// The claims of the bearer, which hold the permission `P`.
    pub fn claims(&self) -> (claims: &ApiClaims)
        ensures
            *claims == self@,
            P::grants(*claims),
    {
        proof {
            use_type_invariant(self);
        }
        &self.claims
    }

    /// The claims of the bearer, by value.
    pub fn into_claims(self) -> (claims: ApiClaims)
        ensures
            claims == self@,
            P::grants(claims),
    {
        proof {
            use_type_invariant(&self);
        }
        self.claims
    }
}

impl<P: ClaimPermission> TryFrom<ApiClaims> for AuthenticatedUser<P> {
    type Error = AuthError;

    /// Lets the bearer through where the claims hold the permission `P`.
    fn try_from(value: ApiClaims) -> (user: Result<Self, AuthError>) {
        if P::check(&value) {
            Ok(AuthenticatedUser { claims: value, phantom: PhantomData })
        } else {
            Err(AuthError::MissingPermission)
        }
    }
}

impl<P: ClaimPermission> TryFromSpecImpl<ApiClaims> for AuthenticatedUser<P> {
    open spec fn obeys_try_from_spec() -> bool {
        true
    }

    closed spec fn try_from_spec(value: ApiClaims) -> Result<Self, AuthError> {
        if P::grants(value) {
            Ok(AuthenticatedUser { claims: value, phantom: PhantomData })
        } else {
            Err(AuthError::MissingPermission)
        }
    }
}

/// Admission is decided by the permission alone: the bearer is let through
/// exactly when the claims hold it, then with those very claims, and is
/// turned away for want of the permission otherwise.
pub proof fn law_admission<P: ClaimPermission>(claims: ApiClaims)
    ensures
        P::grants(claims) ==> (<AuthenticatedUser<P> as TryFromSpec<ApiClaims>>::try_from_spec(
            claims,
        ) matches Ok(user) && user@ == claims),
        !P::grants(claims) ==> <AuthenticatedUser<P> as TryFromSpec<ApiClaims>>::try_from_spec(
            claims,
        ) == Err::<AuthenticatedUser<P>, AuthError>(AuthError::MissingPermission),
{
}

} // verus!
