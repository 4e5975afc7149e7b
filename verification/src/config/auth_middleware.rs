use crate::dto::auth_dto::RoleRelPath;
use crate::model::state::PermissionTable;
use crate::service::auth_service::{
    authority_verdict, verify_token_and_authority_at, AuthError, AuthFailure,
};
use crate::util::header_util::HeaderLookup;
use crate::util::time_util::current_time;
use crate::util::token_util::TokenError;
use vstd::prelude::*;

verus! {

/// What becomes of a request at the guard.
#[derive(Debug, PartialEq, Eq)]
pub enum Admission {
    /// Hand the request, unchanged, to the next handler and pass on
    /// whatever it answers.
    Forward,
    /// Answer with this failure; the next handler never sees the request.
    Reject(AuthError),
}

/// The kind of a failure, which decides how it is answered.
#[derive(Debug, Clone, Copy, PartialEq, Eq, Structural)]
pub enum FailureClass {
    /// The caller did not prove who they are: they must (re-)authenticate.
    Authentication,
    /// The credential is malformed or forged: an error of the client.
    MalformedCredential,
    /// The caller is known but may not do this.
    Authorization,
    /// The stored permission table is broken; the caller is not at fault.
    Configuration,
}

/// The kind of each failure.
pub open spec fn class_of(failure: AuthFailure) -> FailureClass {
    match failure {
        AuthFailure::MissingCredential => FailureClass::Authentication,
        AuthFailure::Expired => FailureClass::Authentication,
        AuthFailure::InvalidFormat => FailureClass::MalformedCredential,
        AuthFailure::InvalidSignature => FailureClass::MalformedCredential,
        AuthFailure::Unauthorized => FailureClass::Authorization,
        AuthFailure::InvalidPatternConfig(_) => FailureClass::Configuration,
    }
}

/// The kind of a failure.
pub fn failure_class(error: &AuthError) -> (class: FailureClass)
    ensures
        class == class_of(error@),
{
    match error {
        AuthError::MissingCredential => FailureClass::Authentication,
        AuthError::Expired => FailureClass::Authentication,
        AuthError::InvalidFormat => FailureClass::MalformedCredential,
        AuthError::InvalidSignature => FailureClass::MalformedCredential,
        AuthError::Unauthorized => FailureClass::Authorization,
        AuthError::InvalidPatternConfig { .. } => FailureClass::Configuration,
    }
}

/// The HTTP status that answers a failure of each kind.
pub fn failure_status(class: FailureClass) -> (status: u16)
    ensures
        status == match class {
            FailureClass::Authentication => 401u16,
            FailureClass::MalformedCredential => 400u16,
            FailureClass::Authorization => 403u16,
            FailureClass::Configuration => 500u16,
        },
{
    match class {
        FailureClass::Authentication => 401,
        FailureClass::MalformedCredential => 400,
        FailureClass::Authorization => 403,
        FailureClass::Configuration => 500,
    }
}

pub const MSG_UNAUTHENTICATED: &'static str = "未授权";

pub const MSG_TOKEN_INVALID: &'static str = "token验证失败: ";

pub const MSG_TOKEN_EXPIRED: &'static str = "token已过期";

pub const MSG_FORBIDDEN: &'static str = "权限验证失败";

pub const MSG_PATTERN_INVALID: &'static str = "无效的正则表达式: ";

pub const MSG_FOR_ROLE: &'static str = ", 角色: ";

/// Each failure in words. A broken pattern is named together with the role
/// it is stored under.
pub open spec fn message_of(failure: AuthFailure) -> Seq<char> {
    match failure {
        AuthFailure::MissingCredential => MSG_UNAUTHENTICATED@,
        AuthFailure::InvalidFormat => MSG_TOKEN_INVALID@ + TokenError::InvalidFormat.message_spec(),
        AuthFailure::InvalidSignature => MSG_TOKEN_INVALID@
            + TokenError::InvalidSignature.message_spec(),
        AuthFailure::Expired => MSG_TOKEN_EXPIRED@,
        AuthFailure::Unauthorized => MSG_FORBIDDEN@,
        AuthFailure::InvalidPatternConfig(grant) => MSG_PATTERN_INVALID@ + grant.resource_value
            + MSG_FOR_ROLE@ + grant.role_name,
    }
}

/// A failure in words, for the answer to the caller and for the log.
pub fn failure_message(error: &AuthError) -> (text: String)
    ensures
        text@ == message_of(error@),
{
    match error {
        AuthError::MissingCredential => MSG_UNAUTHENTICATED.to_owned(),
        AuthError::InvalidFormat => MSG_TOKEN_INVALID.to_owned().concat(
            TokenError::InvalidFormat.message().as_str(),
        ),
        AuthError::InvalidSignature => MSG_TOKEN_INVALID.to_owned().concat(
            TokenError::InvalidSignature.message().as_str(),
        ),
        AuthError::Expired => MSG_TOKEN_EXPIRED.to_owned(),
        AuthError::Unauthorized => MSG_FORBIDDEN.to_owned(),
        AuthError::InvalidPatternConfig { role, pattern } => MSG_PATTERN_INVALID.to_owned().concat(
            pattern.as_str(),
        ).concat(MSG_FOR_ROLE).concat(role.as_str()),
    }
}

/// The mathematical content of a [`HeaderLookup`].
pub ghost enum HeaderFound {
    Missing,
    Unreadable,
    Text(Seq<char>),
}

/// The mathematical content of a header lookup.
pub open spec fn header_view(lookup: HeaderLookup) -> HeaderFound {
    match lookup {
        HeaderLookup::Missing => HeaderFound::Missing,
        HeaderLookup::Unreadable => HeaderFound::Unreadable,
        HeaderLookup::Text(text) => HeaderFound::Text(text@),
    }
}

/// Where a request ends at the guard at the time `now`: `None` if it is
/// forwarded, else the failure it is answered with.
///
/// A request without the credential header, or with an empty one, ends as
/// `MissingCredential`; one whose header is no text as `InvalidFormat`.
/// Any other is decided by the credential and the table.
pub open spec fn admission_verdict(
    header: HeaderFound,
    path: Seq<char>,
    table: Map<Seq<char>, Seq<RoleRelPath>>,
    secret: Seq<char>,
    now: usize,
) -> Option<AuthFailure> {
    match header {
        HeaderFound::Missing => Some(AuthFailure::MissingCredential),
        HeaderFound::Unreadable => Some(AuthFailure::InvalidFormat),
        HeaderFound::Text(token) => if token.len() == 0 {
            Some(AuthFailure::MissingCredential)
        } else {
            match authority_verdict(token, path, table, secret, now) {
                Ok(true) => None,
                Ok(false) => Some(AuthFailure::Unauthorized),
                Err(failure) => Some(failure),
            }
        },
    }
}

/// The mathematical content of a decision.
pub open spec fn decision_view(decision: Admission) -> Option<AuthFailure> {
    match decision {
        Admission::Forward => None,
        Admission::Reject(error) => Some(error@),
    }
}

/// Where the way of a request through the guard ends. A request starts, has
/// its credential taken from the header, the credential decoded, its bearer
/// authorized, and is forwarded; at each of these steps it can leave by the
/// exit of that step instead.
#[derive(Debug, Clone, Copy, PartialEq, Eq, Structural)]
pub enum RequestExit {
    /// Every step passed.
    Forwarded,
    /// No credential could be taken from the header.
    MissingCredential,
    /// The credential could not be decoded: malformed or forged.
    DecodeFailed,
    /// The credential was decoded and found out of date.
    Expired,
    /// The bearer has no grant for the path.
    Unauthorized,
    /// The permission table holds a pattern that is no regular expression.
    Misconfigured,
}

/// The exit that belongs to each end of a request.
pub open spec fn exit_of(verdict: Option<AuthFailure>) -> RequestExit {
    match verdict {
        None => RequestExit::Forwarded,
        Some(AuthFailure::MissingCredential) => RequestExit::MissingCredential,
        Some(AuthFailure::InvalidFormat) => RequestExit::DecodeFailed,
        Some(AuthFailure::InvalidSignature) => RequestExit::DecodeFailed,
        Some(AuthFailure::Expired) => RequestExit::Expired,
        Some(AuthFailure::Unauthorized) => RequestExit::Unauthorized,
        Some(AuthFailure::InvalidPatternConfig(_)) => RequestExit::Misconfigured,
    }
}

/// The exit by which a decided request leaves.
pub fn request_exit(decision: &Admission) -> (exit: RequestExit)
    ensures
        exit == exit_of(decision_view(*decision)),
{
    match decision {
        Admission::Forward => RequestExit::Forwarded,
        Admission::Reject(AuthError::MissingCredential) => RequestExit::MissingCredential,
        Admission::Reject(AuthError::InvalidFormat) => RequestExit::DecodeFailed,
        Admission::Reject(AuthError::InvalidSignature) => RequestExit::DecodeFailed,
        Admission::Reject(AuthError::Expired) => RequestExit::Expired,
        Admission::Reject(AuthError::Unauthorized) => RequestExit::Unauthorized,
        Admission::Reject(AuthError::InvalidPatternConfig { .. }) => RequestExit::Misconfigured,
    }
}

/// The guard in front of a service: it lets a request through to `service`
/// only if the request carries a valid credential whose roles are granted
/// the request's path.
pub struct AuthMiddleware<S> {
    pub service: S,
}

impl<S> AuthMiddleware<S> {
    /// Decides, as of the time `now`, what happens to a request with the
    /// given credential header and path. The guard keeps nothing between
    /// requests: the decision depends on the arguments alone.
    pub fn call_at(
        &self,
        header: &HeaderLookup,
        path: &str,
        table: &PermissionTable,
        secret: &str,
        now: usize,
    ) -> (decision: Admission)
        ensures
            decision_view(decision) == admission_verdict(
                header_view(*header),
                path@,
                table@,
                secret@,
                now,
            ),
    {
        match header {
            HeaderLookup::Missing => Admission::Reject(AuthError::MissingCredential),
            HeaderLookup::Unreadable => Admission::Reject(AuthError::InvalidFormat),
            HeaderLookup::Text(token) => {
                if token.as_str().is_empty() {
                    Admission::Reject(AuthError::MissingCredential)
                } else {
                    match verify_token_and_authority_at(token.as_str(), path, table, secret, now) {
                        Ok(true) => Admission::Forward,
                        Ok(false) => Admission::Reject(AuthError::Unauthorized),
                        Err(error) => Admission::Reject(error),
                    }
                }
            },
        }
    }

    /// Decides what happens to a request as of the time of the call. The
    /// clock is read once; the decision is the one that
    /// [`AuthMiddleware::call_at`] gives for that reading.
    pub fn call(&self, header: &HeaderLookup, path: &str, table: &PermissionTable, secret: &str) -> (decision:
        Admission)
        ensures
            exists|now: usize|
                decision_view(decision) == #[trigger] admission_verdict(
                    header_view(*header),
                    path@,
                    table@,
                    secret@,
                    now,
                ),
    {
        let now = current_time();
        self.call_at(header, path, table, secret, now)
    }
}

/// Makes guards: one for each service to protect.
pub struct Auth;

impl Auth {
    /// The guard in front of `service`.
    pub fn new_transform<S>(&self, service: S) -> (guard: AuthMiddleware<S>)
        ensures
            guard.service == service,
    {
        AuthMiddleware { service }
    }
}

} // verus!
