use crate::dto::auth_dto::{RegisterDto, RoleRelPath, RoleRelPathDto};
use crate::model::config::Jwt;
use crate::model::constance::DEFAULT_BCRYPT_COST;
use crate::model::state::{grouped, PermissionTable};
use crate::model::user::{Role, User};
use crate::util::password_util::{
    bcrypt_verified, names_cost, password_hash, password_matches,
};
use crate::util::pattern_util::{pattern_compiles, pattern_matches, PatternCache};
use crate::util::time_util::{current_time, expiration_after, hours_after, unix_timestamp};
use crate::util::token_util::{
    generate_jwt_token, hs512_sealed, outcome_view, token_verdict, validate_jwt_token_at, Claims,
    TokenClaims, TokenError,
};
use vstd::prelude::*;

verus! {

/// Why a request was turned away.
#[derive(Debug, PartialEq, Eq)]
pub enum AuthError {
    /// The request carried no credential, or an empty one.
    MissingCredential,
    /// The credential could not be read as a signed token.
    InvalidFormat,
    /// The credential's signature does not belong to its content.
    InvalidSignature,
    /// The credential was genuine but its time has run out.
    Expired,
    /// The caller is known but no grant of their roles covers the path.
    Unauthorized,
    /// A stored resource pattern is no regular expression.
    InvalidPatternConfig { role: String, pattern: String },
}

/// The mathematical content of an [`AuthError`].
pub ghost enum AuthFailure {
    MissingCredential,
    InvalidFormat,
    InvalidSignature,
    Expired,
    Unauthorized,
    InvalidPatternConfig(RoleRelPath),
}

impl View for AuthError {
    type V = AuthFailure;

    open spec fn view(&self) -> AuthFailure {
        match self {
            AuthError::MissingCredential => AuthFailure::MissingCredential,
            AuthError::InvalidFormat => AuthFailure::InvalidFormat,
            AuthError::InvalidSignature => AuthFailure::InvalidSignature,
            AuthError::Expired => AuthFailure::Expired,
            AuthError::Unauthorized => AuthFailure::Unauthorized,
            AuthError::InvalidPatternConfig { role, pattern } => AuthFailure::InvalidPatternConfig(
                RoleRelPath { role_name: role@, resource_value: pattern@ },
            ),
        }
    }
}

/// The characters of each string of a list.
pub open spec fn texts(strings: Seq<String>) -> Seq<Seq<char>> {
    Seq::new(strings.len(), |i: int| strings[i]@)
}

/// The grants that `table` holds for `role`: none if the role is no key.
pub open spec fn grants_of(table: Map<Seq<char>, Seq<RoleRelPath>>, role: Seq<char>) -> Seq<
    RoleRelPath,
> {
    if table.contains_key(role) {
        table[role]
    } else {
        Seq::empty()
    }
}

/// The grants that a check for `roles` looks at, in the order in which it
/// looks at them: role by role as the caller listed them, and within a role
/// in stored order. A role listed twice is looked at twice.
pub open spec fn grants_in_order(
    roles: Seq<Seq<char>>,
    table: Map<Seq<char>, Seq<RoleRelPath>>,
) -> Seq<RoleRelPath>
    decreases roles.len(),
{
    if roles.len() == 0 {
        Seq::empty()
    } else {
        grants_in_order(roles.drop_last(), table) + grants_of(table, roles.last())
    }
}

/// A check stops at `grant`: its pattern matches the path, or is no regular
/// expression at all.
pub open spec fn halts(grant: RoleRelPath, path: Seq<char>) -> bool {
    !pattern_compiles(grant.resource_value) || pattern_matches(grant.resource_value, path)
}

/// `i` is the first place of `grants` at which a check stops.
pub open spec fn first_halt(grants: Seq<RoleRelPath>, path: Seq<char>, i: int) -> bool {
    &&& 0 <= i < grants.len()
    &&& halts(grants[i], path)
    &&& forall|j: int| 0 <= j < i ==> !halts(#[trigger] grants[j], path)
}

/// What a check of `path` against `grants` comes to. Where no grant stops
/// it, access is denied. Otherwise the first grant that stops it decides:
/// access is allowed if its pattern is a regular expression (which then
/// matches), and the grant is reported as broken if it is not.
pub open spec fn permission_verdict(grants: Seq<RoleRelPath>, path: Seq<char>) -> Result<
    bool,
    RoleRelPath,
> {
    if exists|i: int| first_halt(grants, path, i) {
        let i = choose|i: int| first_halt(grants, path, i);
        if pattern_compiles(grants[i].resource_value) {
            Ok(true)
        } else {
            Err(grants[i])
        }
    } else {
        Ok(false)
    }
}

/// The verdict at a known first stop.
pub proof fn lemma_verdict_at(grants: Seq<RoleRelPath>, path: Seq<char>, i: int)
    requires
        first_halt(grants, path, i),
    ensures
        permission_verdict(grants, path) == (if pattern_compiles(grants[i].resource_value) {
            Ok::<bool, RoleRelPath>(true)
        } else {
            Err::<bool, RoleRelPath>(grants[i])
        }),
{
    let j = choose|j: int| first_halt(grants, path, j);
    assert(i == j) by {
        if i < j {
            assert(!halts(grants[i], path));
        } else if j < i {
            assert(!halts(grants[j], path));
        }
    }
}

/// The verdict where nothing stops the check.
pub proof fn lemma_verdict_none(grants: Seq<RoleRelPath>, path: Seq<char>)
    requires
        forall|i: int| 0 <= i < grants.len() ==> !halts(#[trigger] grants[i], path),
    ensures
        permission_verdict(grants, path) == Ok::<bool, RoleRelPath>(false),
{
}

/// The grants looked at for the first `n` roles stand at the front of those
/// looked at for all of them.
pub proof fn lemma_grants_prefix(
    roles: Seq<Seq<char>>,
    table: Map<Seq<char>, Seq<RoleRelPath>>,
    n: int,
)
    requires
        0 <= n <= roles.len(),
    ensures
        grants_in_order(roles.take(n), table).is_prefix_of(grants_in_order(roles, table)),
    decreases roles.len(),
{
    if n == roles.len() {
        assert(roles.take(n) =~= roles);
    } else {
        lemma_grants_prefix(roles.drop_last(), table, n);
        assert(roles.drop_last().take(n) =~= roles.take(n));
    }
}

/// `grant` is stored in `table` under one of `roles`.
pub open spec fn granted_to(
    roles: Seq<Seq<char>>,
    table: Map<Seq<char>, Seq<RoleRelPath>>,
    grant: RoleRelPath,
) -> bool {
    exists|r: int| 0 <= r < roles.len() && #[trigger] grants_of(table, roles[r]).contains(grant)
}

/// Some grant stored under one of `roles` has a pattern that matches `path`.
pub open spec fn some_grant_matches(
    roles: Seq<Seq<char>>,
    table: Map<Seq<char>, Seq<RoleRelPath>>,
    path: Seq<char>,
) -> bool {
    exists|grant: RoleRelPath| #[trigger]
        granted_to(roles, table, grant) && pattern_matches(grant.resource_value, path)
}

/// Every grant stored under one of `roles` has a pattern that is a regular
/// expression.
pub open spec fn all_patterns_compile(
    roles: Seq<Seq<char>>,
    table: Map<Seq<char>, Seq<RoleRelPath>>,
) -> bool {
    forall|grant: RoleRelPath| #[trigger]
        granted_to(roles, table, grant) ==> pattern_compiles(grant.resource_value)
}

/// A check looks at exactly the grants stored under the listed roles.
pub proof fn lemma_grants_looked_at(
    roles: Seq<Seq<char>>,
    table: Map<Seq<char>, Seq<RoleRelPath>>,
    grant: RoleRelPath,
)
    ensures
        grants_in_order(roles, table).contains(grant) <==> granted_to(roles, table, grant),
    decreases roles.len(),
{
    if roles.len() > 0 {
        let front = roles.drop_last();
        let tail = grants_of(table, roles.last());
        lemma_grants_looked_at(front, table, grant);
        let all = grants_in_order(roles, table);
        assert(all == grants_in_order(front, table) + tail);
        if all.contains(grant) {
            let k = choose|k: int| 0 <= k < all.len() && all[k] == grant;
            if k < grants_in_order(front, table).len() {
                assert(grants_in_order(front, table)[k] == grant);
                let r = choose|r: int|
                    0 <= r < front.len() && #[trigger] grants_of(table, front[r]).contains(grant);
                assert(grants_of(table, roles[r]).contains(grant));
            } else {
                assert(tail[k - grants_in_order(front, table).len()] == grant);
                assert(grants_of(table, roles[roles.len() - 1]).contains(grant));
            }
        }
        if granted_to(roles, table, grant) {
            let r = choose|r: int|
                0 <= r < roles.len() && #[trigger] grants_of(table, roles[r]).contains(grant);
            if r < front.len() {
                assert(grants_of(table, front[r]).contains(grant));
                let k = choose|k: int|
                    0 <= k < grants_in_order(front, table).len() && grants_in_order(
                        front,
                        table,
                    )[k] == grant;
                assert(all[k] == grant);
            } else {
                let i = choose|i: int| 0 <= i < tail.len() && tail[i] == grant;
                assert(all[grants_in_order(front, table).len() + i] == grant);
            }
        }
    }
}

/// Where a check stops somewhere, there is a first place at which it stops.
pub proof fn lemma_first_halt_exists(grants: Seq<RoleRelPath>, path: Seq<char>, k: int)
    requires
        0 <= k < grants.len(),
        halts(grants[k], path),
    ensures
        exists|i: int| 0 <= i <= k && first_halt(grants, path, i),
    decreases k,
{
    if exists|j: int| 0 <= j < k && halts(#[trigger] grants[j], path) {
        let j = choose|j: int| 0 <= j < k && halts(#[trigger] grants[j], path);
        lemma_first_halt_exists(grants, path, j);
    } else {
        assert(first_halt(grants, path, k));
    }
}

/// Soundness and exhaustiveness of the permission check.
///
/// Access is never allowed unless some grant of one of the caller's roles
/// matches the path. And where every pattern stored under the caller's
/// roles is a regular expression, access is allowed exactly when some grant
/// of one of those roles matches the path, and denied otherwise. (A stored
/// pattern that is no regular expression can end the check with an error
/// before a matching grant is reached.)
pub proof fn lemma_permission_sound_and_exhaustive(
    roles: Seq<Seq<char>>,
    table: Map<Seq<char>, Seq<RoleRelPath>>,
    path: Seq<char>,
)
    ensures
        permission_verdict(grants_in_order(roles, table), path) == Ok::<bool, RoleRelPath>(true)
            ==> some_grant_matches(roles, table, path),
        all_patterns_compile(roles, table) ==> permission_verdict(
            grants_in_order(roles, table),
            path,
        ) == Ok::<bool, RoleRelPath>(some_grant_matches(roles, table, path)),
{
    let all = grants_in_order(roles, table);
    if exists|i: int| first_halt(all, path, i) {
        let i = choose|i: int| first_halt(all, path, i);
        lemma_verdict_at(all, path, i);
        lemma_grants_looked_at(roles, table, all[i]);
        assert(all.contains(all[i]));
        assert(granted_to(roles, table, all[i]));
    }
    if all_patterns_compile(roles, table) {
        if some_grant_matches(roles, table, path) {
            let grant = choose|grant: RoleRelPath| #[trigger]
                granted_to(roles, table, grant) && pattern_matches(grant.resource_value, path);
            lemma_grants_looked_at(roles, table, grant);
            let k = choose|k: int| 0 <= k < all.len() && all[k] == grant;
            lemma_first_halt_exists(all, path, k);
            let i = choose|i: int| 0 <= i <= k && first_halt(all, path, i);
            lemma_verdict_at(all, path, i);
            lemma_grants_looked_at(roles, table, all[i]);
            assert(all.contains(all[i]));
            assert(granted_to(roles, table, all[i]));
        } else {
            assert forall|i: int| 0 <= i < all.len() implies !halts(#[trigger] all[i], path) by {
                lemma_grants_looked_at(roles, table, all[i]);
                assert(all.contains(all[i]));
                assert(granted_to(roles, table, all[i]));
            }
            lemma_verdict_none(all, path);
        }
    }
}

/// A table without any of the caller's roles denies whatever is asked.
///
/// So a reload that publishes grants for other roles only is seen by every
/// check that runs on the new table, while a check that holds a snapshot
/// taken before the reload is decided by that snapshot, which the reload
/// does not touch.
pub proof fn lemma_foreign_table_denies(
    roles: Seq<Seq<char>>,
    table: Map<Seq<char>, Seq<RoleRelPath>>,
    path: Seq<char>,
)
    requires
        forall|r: int| 0 <= r < roles.len() ==> !table.contains_key(#[trigger] roles[r]),
    ensures
        grants_in_order(roles, table) == Seq::<RoleRelPath>::empty(),
        permission_verdict(grants_in_order(roles, table), path) == Ok::<bool, RoleRelPath>(false),
    decreases roles.len(),
{
    if roles.len() > 0 {
        let front = roles.drop_last();
        assert forall|r: int| 0 <= r < front.len() implies !table.contains_key(
            #[trigger] front[r],
        ) by {
            assert(front[r] == roles[r]);
        }
        lemma_foreign_table_denies(front, table, path);
        assert(!table.contains_key(roles[roles.len() - 1]));
        assert(grants_in_order(roles, table) =~= Seq::<RoleRelPath>::empty());
    }
    lemma_verdict_none(grants_in_order(roles, table), path);
}

/// What one grant does to a check, given what testing its pattern against
/// the path gave (`None`: the pattern is no regular expression): it ends
/// the check with a verdict, or lets it go on (`None`).
pub fn judge_grant(answer: Option<bool>, grant: &RoleRelPathDto) -> (end: Option<
    Result<bool, AuthError>,
>)
    ensures
        match answer {
            Some(true) => end == Some(Ok::<bool, AuthError>(true)),
            Some(false) => end is None,
            None => end matches Some(Err(AuthError::InvalidPatternConfig { role, pattern }))
                && role@ == grant.role_name@ && pattern@ == grant.resource_value@,
        },
{
    match answer {
        Some(true) => Some(Ok(true)),
        Some(false) => None,
        None => Some(
            Err(
                AuthError::InvalidPatternConfig {
                    role: grant.role_name.clone(),
                    pattern: grant.resource_value.clone(),
                },
            ),
        ),
    }
}

/// Decides whether a caller with `roles` may reach `path`.
///
/// The roles are taken in the caller's order and each role's grants in
/// stored order; a role that the table does not know adds nothing. The check
/// ends at the first grant whose pattern matches `path`, with `Ok(true)`, or
/// at the first whose pattern is no regular expression, with
/// `InvalidPatternConfig` naming that role and pattern. If it runs through,
/// the answer is `Ok(false)`.
pub fn check_resource_permission(roles: &[String], path: &str, table: &PermissionTable) -> (verdict:
    Result<bool, AuthError>)
    ensures
        match verdict {
            Ok(allowed) => permission_verdict(grants_in_order(texts(roles@), table@), path@) == Ok::<
                bool,
                RoleRelPath,
            >(allowed),
            Err(AuthError::InvalidPatternConfig { role, pattern }) => permission_verdict(
                grants_in_order(texts(roles@), table@),
                path@,
            ) == Err::<bool, RoleRelPath>(
                RoleRelPath { role_name: role@, resource_value: pattern@ },
            ),
            Err(_) => false,
        },
{
    let mut cache = PatternCache::new();
    let ghost names = texts(roles@);
    let ghost all = grants_in_order(names, table@);
    let mut r: usize = 0;
    assert(names.take(0) =~= Seq::<Seq<char>>::empty());
    while r < roles.len()
        invariant
            r <= roles.len(),
            names == texts(roles@),
            all == grants_in_order(names, table@),
            forall|i: int|
                0 <= i < grants_in_order(names.take(r as int), table@).len() ==> !halts(
                    #[trigger] grants_in_order(names.take(r as int), table@)[i],
                    path@,
                ),
        decreases roles.len() - r,
    {
        let ghost seen = grants_in_order(names.take(r as int), table@);
        let ghost next = grants_in_order(names.take(r + 1), table@);
        proof {
            assert(names.take(r + 1).drop_last() =~= names.take(r as int));
            assert(names.take(r + 1).last() == roles@[r as int]@);
            lemma_grants_prefix(names, table@, r + 1);
        }
        match table.get(roles[r].as_str()) {
            Some(grants) => {
                assert(next == seen + grants.deep_view());
                let mut k: usize = 0;
                while k < grants.len()
                    invariant
                        k <= grants.len(),
                        all == grants_in_order(texts(roles@), table@),
                        next == seen + grants.deep_view(),
                        next.is_prefix_of(all),
                        forall|i: int| 0 <= i < seen.len() ==> !halts(#[trigger] seen[i], path@),
                        forall|j: int|
                            0 <= j < k ==> !halts(#[trigger] grants.deep_view()[j], path@),
                    decreases grants.len() - k,
                {
                    let ghost at = seen.len() + k;
                    proof {
                        assert(all[at] == next[at]);
                        assert(next[at] == grants.deep_view()[k as int]);
                        assert(grants.deep_view()[k as int] == grants[k as int]@);
                        assert forall|j: int| 0 <= j < at implies !halts(#[trigger] all[j], path@) by {
                            assert(all[j] == next[j]);
                            if j < seen.len() {
                                assert(next[j] == seen[j]);
                            } else {
                                assert(next[j] == grants.deep_view()[j - seen.len()]);
                            }
                        }
                    }
                    let answer = cache.is_match(grants[k].resource_value.as_str(), path);
                    match judge_grant(answer, &grants[k]) {
                        Some(verdict) => {
                            proof {
                                lemma_verdict_at(all, path@, at);
                            }
                            return verdict;
                        },
                        None => {},
                    }
                    k += 1;
                }
                assert forall|i: int| 0 <= i < next.len() implies !halts(#[trigger] next[i], path@) by {
                    if i < seen.len() {
                        assert(next[i] == seen[i]);
                    } else {
                        assert(next[i] == grants.deep_view()[i - seen.len()]);
                    }
                }
            },
            None => {
                assert(next =~= seen);
            },
        }
        r += 1;
    }
    proof {
        assert(names.take(roles.len() as int) =~= names);
        lemma_verdict_none(all, path@);
    }
    Ok(false)
}

/// What the check of a credential and of its bearer's right to `path` comes
/// to at the time `now`. The credential is judged first; only the roles of
/// a valid credential are held against the table.
pub open spec fn authority_verdict(
    token: Seq<char>,
    path: Seq<char>,
    table: Map<Seq<char>, Seq<RoleRelPath>>,
    secret: Seq<char>,
    now: usize,
) -> Result<bool, AuthFailure> {
    claims_verdict(token_verdict(token, secret, now), path, table)
}

/// The mathematical content of the outcome of a check.
pub open spec fn check_view(outcome: Result<bool, AuthError>) -> Result<bool, AuthFailure> {
    match outcome {
        Ok(allowed) => Ok(allowed),
        Err(error) => Err(error@),
    }
}

/// What the outcome of a validation means for a request to `path`: a
/// refused credential is refused here for the same reason, and the bearer
/// of a valid one is allowed (`Ok(true)`) or refused by the permission
/// check on their roles.
pub open spec fn claims_verdict(
    validated: Result<Claims, TokenError>,
    path: Seq<char>,
    table: Map<Seq<char>, Seq<RoleRelPath>>,
) -> Result<bool, AuthFailure> {
    match validated {
        Err(TokenError::InvalidSignature) => Err(AuthFailure::InvalidSignature),
        Err(TokenError::Expired) => Err(AuthFailure::Expired),
        Err(_) => Err(AuthFailure::InvalidFormat),
        Ok(claims) => match permission_verdict(grants_in_order(claims.roles, table), path) {
            Ok(true) => Ok(true),
            Ok(false) => Err(AuthFailure::Unauthorized),
            Err(grant) => Err(AuthFailure::InvalidPatternConfig(grant)),
        },
    }
}

/// Decides a request to `path` from the outcome of validating its
/// credential.
pub fn authorize_claims(
    validated: Result<TokenClaims, TokenError>,
    path: &str,
    table: &PermissionTable,
) -> (outcome: Result<bool, AuthError>)
    ensures
        check_view(outcome) == claims_verdict(outcome_view(validated), path@, table@),
{
    match validated {
        Ok(claims) => {
            assert(texts(claims.roles@) =~= claims.roles.deep_view());
            match check_resource_permission(claims.roles.as_slice(), path, table) {
                Ok(true) => Ok(true),
                Ok(false) => Err(AuthError::Unauthorized),
                Err(error) => Err(error),
            }
        },
        Err(TokenError::InvalidSignature) => Err(AuthError::InvalidSignature),
        Err(TokenError::Expired) => Err(AuthError::Expired),
        Err(_) => Err(AuthError::InvalidFormat),
    }
}

/// Checks, as of the time `now`, that `token` is a valid credential and
/// that its bearer may reach `path`. The answer is `Ok(true)` or an error:
/// a valid bearer without a matching grant is refused as `Unauthorized`.
pub fn verify_token_and_authority_at(
    token: &str,
    path: &str,
    table: &PermissionTable,
    secret: &str,
    now: usize,
) -> (outcome: Result<bool, AuthError>)
    ensures
        check_view(outcome) == authority_verdict(token@, path@, table@, secret@, now),
{
    authorize_claims(validate_jwt_token_at(token, secret, now), path, table)
}

/// Checks, as of the time of the call, that `token` is a valid credential
/// and that its bearer may reach `path`. The clock is read once; the
/// outcome is the one that [`verify_token_and_authority_at`] gives for that
/// reading.
pub fn verify_token_and_authority(
    token: &str,
    path: &str,
    table: &PermissionTable,
    secret: &str,
) -> (outcome: Result<bool, AuthError>)
    ensures
        exists|now: usize|
            check_view(outcome) == #[trigger] authority_verdict(
                token@,
                path@,
                table@,
                secret@,
                now,
            ),
{
    let now = current_time();
    verify_token_and_authority_at(token, path, table, secret, now)
}

/// Builds the permission table from what the loader returned. A loader
/// that failed, like one that found nothing, gives the empty table.
pub fn load_all_role_rel_resource(loaded: Result<Vec<RoleRelPathDto>, String>) -> (table:
    PermissionTable)
    ensures
        table@ == match loaded {
            Ok(grants) => grouped(grants.deep_view()),
            Err(_) => grouped(Seq::empty()),
        },
{
    match loaded {
        Ok(grants) => PermissionTable::from_entries(grants),
        Err(_) => PermissionTable::new(),
    }
}

pub const MSG_USER_QUERY_FAILED: &'static str = "查询用户失败：";

pub const MSG_USER_UNKNOWN: &'static str = "用户不存在";

pub const MSG_PASSWORD_UNVERIFIABLE: &'static str = "密码验证失败";

pub const MSG_PASSWORD_WRONG: &'static str = "密码错误";

pub const MSG_USER_ID_MISSING: &'static str = "用户ID为空";

/// The stored password hash of a user row: the empty text where the row has
/// none.
pub open spec fn stored_hash(user: User) -> Seq<char> {
    match user.password {
        Some(hash) => hash@,
        None => Seq::empty(),
    }
}

/// What a login attempt comes to, given what the lookup of the user name
/// found: the user's id, or the reason for the refusal in words.
pub open spec fn login_verdict(found: Result<Option<User>, String>, password: Seq<char>) -> Result<
    u64,
    Seq<char>,
> {
    match found {
        Err(reason) => Err(MSG_USER_QUERY_FAILED@ + reason@),
        Ok(None) => Err(MSG_USER_UNKNOWN@),
        Ok(Some(user)) => password_verdict(user.id, bcrypt_verified(password, stored_hash(user))),
    }
}

/// What a login comes to once the password has been held against the
/// stored hash (`None`: the hash could not be read).
pub open spec fn password_verdict(id: Option<u64>, verdict: Option<bool>) -> Result<
    u64,
    Seq<char>,
> {
    match verdict {
        None => Err(MSG_PASSWORD_UNVERIFIABLE@),
        Some(false) => Err(MSG_PASSWORD_WRONG@),
        Some(true) => match id {
            Some(id) => Ok(id),
            None => Err(MSG_USER_ID_MISSING@),
        },
    }
}

/// Decides a login once the password has been held against the stored
/// hash.
pub fn judge_password(id: Option<u64>, verdict: Option<bool>) -> (outcome: Result<u64, String>)
    ensures
        worded(outcome) == password_verdict(id, verdict),
{
    match verdict {
        None => Err(MSG_PASSWORD_UNVERIFIABLE.to_owned()),
        Some(false) => Err(MSG_PASSWORD_WRONG.to_owned()),
        Some(true) => match id {
            Some(id) => Ok(id),
            None => Err(MSG_USER_ID_MISSING.to_owned()),
        },
    }
}

/// The mathematical content of an outcome whose failure is a message.
pub open spec fn worded<T>(outcome: Result<T, String>) -> Result<T, Seq<char>> {
    match outcome {
        Ok(value) => Ok(value),
        Err(message) => Err(message@),
    }
}

/// The mathematical content of an outcome that is a text either way.
pub open spec fn worded_text(outcome: Result<String, String>) -> Result<Seq<char>, Seq<char>> {
    match outcome {
        Ok(text) => Ok(text@),
        Err(message) => Err(message@),
    }
}

/// Decides a login attempt. `found` is what looking up the user name in
/// the store gave: the row, no row, or the store's failure in words.
pub fn verify_login(found: Result<Option<User>, String>, password: &str) -> (outcome: Result<
    u64,
    String,
>)
    ensures
        worded(outcome) == login_verdict(found, password@),
{
    match found {
        Err(reason) => Err(MSG_USER_QUERY_FAILED.to_owned().concat(reason.as_str())),
        Ok(None) => Err(MSG_USER_UNKNOWN.to_owned()),
        Ok(Some(user)) => {
            let verdict = match &user.password {
                Some(hash) => password_matches(password, hash.as_str()),
                None => password_matches(password, ""),
            };
            proof {
                reveal_strlit("");
                assert(""@ =~= Seq::<char>::empty());
            }
            judge_password(user.id, verdict)
        },
    }
}

pub const MSG_TIME_FAILED: &'static str = "时间计算失败";

pub const MSG_TOKEN_FAILED: &'static str = "token生成失败：";

pub const MSG_TOKEN_ROLES_FAILED: &'static str = "token生成失败，获取角色失败";

/// The names of the roles that have one, in the order of the roles.
pub open spec fn role_names(roles: Seq<Role>) -> Seq<Seq<char>>
    decreases roles.len(),
{
    if roles.len() == 0 {
        Seq::empty()
    } else {
        match roles.last().role_name {
            Some(name) => role_names(roles.drop_last()).push(name@),
            None => role_names(roles.drop_last()),
        }
    }
}

/// The names of the roles that have one, in the order of the roles.
pub fn collect_role_names(roles: &Vec<Role>) -> (names: Vec<String>)
    ensures
        names.deep_view() == role_names(roles@),
{
    let mut names: Vec<String> = Vec::new();
    let mut i: usize = 0;
    assert(roles@.take(0) =~= Seq::<Role>::empty());
    assert(names.deep_view() =~= Seq::<Seq<char>>::empty());
    while i < roles.len()
        invariant
            i <= roles.len(),
            names.deep_view() == role_names(roles@.take(i as int)),
        decreases roles.len() - i,
    {
        let ghost before = names.deep_view();
        assert(roles@.take(i + 1).drop_last() =~= roles@.take(i as int));
        match &roles[i].role_name {
            Some(name) => {
                names.push(name.clone());
                assert(names.deep_view() =~= before.push(name@));
            },
            None => {},
        }
        i += 1;
    }
    assert(roles@.take(roles.len() as int) =~= roles@);
    names
}

/// What issuing a credential at the time `now` comes to, given what the
/// lookup of the user's roles found. The credential runs out
/// `jwt.expiration_time` hours after `now` and carries the names of the
/// roles found.
pub open spec fn issue_verdict(
    found: Result<Vec<Role>, String>,
    user_id: u64,
    username: Seq<char>,
    now: i64,
    jwt: Jwt,
) -> Result<Seq<char>, Seq<char>> {
    match hours_after(now as int, jwt.expiration_time as int) {
        None => Err(MSG_TIME_FAILED@),
        Some(end) => match found {
            Err(_) => Err(MSG_TOKEN_ROLES_FAILED@),
            Ok(roles) => match hs512_sealed(
                Claims { user_id, username, exp: end as usize, roles: role_names(roles@) },
                jwt.token_secret@,
            ) {
                Some(token) => Ok(token),
                None => Err(MSG_TOKEN_FAILED@ + TokenError::Signing.message_spec()),
            },
        },
    }
}

/// Issues a credential for a user at the time `now` (signed seconds since
/// the Unix epoch). `found` is what looking up the user's roles in the
/// store gave.
///
/// A credential that is issued validates under `jwt.token_secret`, up to
/// the second at which it runs out, to the user, the names of the roles
/// found and that second.
pub fn gen_token_at(
    found: Result<Vec<Role>, String>,
    user_id: u64,
    username: &str,
    now: i64,
    jwt: &Jwt,
) -> (outcome: Result<String, String>)
    ensures
        worded_text(outcome) == issue_verdict(found, user_id, username@, now, *jwt),
        outcome matches Ok(token) ==> {
            let end = hours_after(now as int, jwt.expiration_time as int)->Some_0 as usize;
            forall|at: usize|
                at <= end ==> #[trigger] token_verdict(token@, jwt.token_secret@, at) == Ok::<
                    Claims,
                    TokenError,
                >(
                    Claims {
                        user_id,
                        username: username@,
                        exp: end,
                        roles: role_names(found->Ok_0@),
                    },
                )
        },
{
    let expiration_time = match expiration_after(now, jwt.expiration_time) {
        Some(end) => end,
        None => {
            return Err(MSG_TIME_FAILED.to_owned());
        },
    };
    match found {
        Ok(roles) => {
            let names = collect_role_names(&roles);
            match generate_jwt_token(
                user_id,
                username,
                expiration_time,
                &names,
                jwt.token_secret.as_str(),
            ) {
                Ok(token) => Ok(token),
                Err(error) => Err(MSG_TOKEN_FAILED.to_owned().concat(error.message().as_str())),
            }
        },
        Err(_) => Err(MSG_TOKEN_ROLES_FAILED.to_owned()),
    }
}

/// Issues a credential for a user at the time of the call. The clock is
/// read once; the outcome is the one that [`gen_token_at`] gives for that
/// reading.
pub fn gen_token(found: Result<Vec<Role>, String>, user_id: u64, username: &str, jwt: &Jwt) -> (outcome:
    Result<String, String>)
    ensures
        exists|now: i64|
            worded_text(outcome) == #[trigger] issue_verdict(found, user_id, username@, now, *jwt),
{
    let now = unix_timestamp();
    gen_token_at(found, user_id, username, now, jwt)
}

pub const MSG_PASSWORDS_DIFFER: &'static str = "两次输入密码不一致";

pub const MSG_NAME_EMPTY: &'static str = "用户名或姓名不能为空";

pub const MSG_USERNAME_TAKEN: &'static str = "用户名已存在";

pub const MSG_USER_LOOKUP_FAILED: &'static str = "查询用户失败: ";

pub const MSG_HASH_FAILED: &'static str = "加密密码失败";

pub const MSG_NOT_WRITTEN: &'static str = "保存用户失败: 数据写入失败";

pub const MSG_SAVE_FAILED: &'static str = "用户保存失败: ";

/// Why a registration is refused before anything is hashed or stored, or
/// `None` if it may go on. What the caller typed is judged first, then what
/// the lookup of the user name found.
pub open spec fn registration_refusal(
    dto: RegisterDto,
    found: Result<Option<User>, String>,
) -> Option<Seq<char>> {
    if dto.password@ != dto.recheck_password@ {
        Some(MSG_PASSWORDS_DIFFER@)
    } else if dto.username@.len() == 0 || dto.name@.len() == 0 {
        Some(MSG_NAME_EMPTY@)
    } else {
        match found {
            Ok(Some(_)) => Some(MSG_USERNAME_TAKEN@),
            Ok(None) => None,
            Err(reason) => Some(MSG_USER_LOOKUP_FAILED@ + reason@),
        }
    }
}

/// Whether what the caller typed can be registered at all: the two
/// passwords agree, and neither the user name nor the name is empty. The
/// error is the reason in words.
pub fn check_register_input(dto: &RegisterDto) -> (outcome: Result<(), String>)
    ensures
        match outcome {
            Ok(_) => dto.password@ == dto.recheck_password@ && dto.username@.len() > 0
                && dto.name@.len() > 0,
            Err(message) => Some(message@) == registration_refusal(*dto, Ok(None)),
        },
{
    if dto.password != dto.recheck_password {
        return Err(MSG_PASSWORDS_DIFFER.to_owned());
    }
    if dto.username.as_str().is_empty() || dto.name.as_str().is_empty() {
        return Err(MSG_NAME_EMPTY.to_owned());
    }
    Ok(())
}

/// Prepares the row of a user who registers at the time `now`. `found` is
/// what looking up the user name in the store gave.
///
/// The registration is refused, with the reason in words, exactly where
/// [`registration_refusal`] says so, and besides only if the password could
/// not be hashed. The row that comes back is not yet stored: it has no id,
/// and its password is a bcrypt hash of the password typed, made at the
/// work factor `DEFAULT_BCRYPT_COST`.
pub fn user_register(dto: RegisterDto, found: Result<Option<User>, String>, now: i64) -> (outcome:
    Result<User, String>)
    ensures
        match outcome {
            Ok(user) => {
                &&& registration_refusal(dto, found) is None
                &&& user.id is None
                &&& user.create_time == Some(now)
                &&& user.creator_id == Some(0u64)
                &&& user.update_time is None
                &&& user.updater_id is None
                &&& user.is_delete == Some(0u8)
                &&& user.del_unique_key == Some(0i8)
                &&& user.username == Some(dto.username)
                &&& user.name == Some(dto.name)
                &&& user.password is Some
                &&& bcrypt_verified(dto.password@, stored_hash(user)) == Some(true)
                &&& names_cost(stored_hash(user), DEFAULT_BCRYPT_COST)
            },
            Err(message) => match registration_refusal(dto, found) {
                Some(reason) => message@ == reason,
                None => message@ == MSG_HASH_FAILED@,
            },
        },
{
    match check_register_input(&dto) {
        Err(message) => {
            return Err(message);
        },
        Ok(_) => {},
    }
    match found {
        Ok(Some(_)) => {
            return Err(MSG_USERNAME_TAKEN.to_owned());
        },
        Ok(None) => {},
        Err(reason) => {
            return Err(MSG_USER_LOOKUP_FAILED.to_owned().concat(reason.as_str()));
        },
    }
    let encrypted_password = match password_hash(dto.password.as_str(), DEFAULT_BCRYPT_COST) {
        Some(hash) => hash,
        None => {
            return Err(MSG_HASH_FAILED.to_owned());
        },
    };
    Ok(User::init_create(dto.username, encrypted_password, dto.name, now))
}

/// Ends a registration once the store has answered the insert. `written`
/// is the number of rows written and the id that the store gave the row,
/// or the store's failure in words. The user comes back with that id,
/// unless nothing was written.
pub fn complete_registration(user: User, written: Result<(u64, u64), String>) -> (outcome: Result<
    User,
    String,
>)
    ensures
        match written {
            Ok((rows_affected, last_insert_id)) => if rows_affected == 0 {
                outcome matches Err(message) && message@ == MSG_NOT_WRITTEN@
            } else {
                outcome == Ok::<User, String>(User { id: Some(last_insert_id), ..user })
            },
            Err(reason) => outcome matches Err(message) && message@ == MSG_SAVE_FAILED@ + reason@,
        },
{
    match written {
        Ok((rows_affected, last_insert_id)) => {
            if rows_affected == 0 {
                Err(MSG_NOT_WRITTEN.to_owned())
            } else {
                let mut user = user;
                user.id = Some(last_insert_id);
                Ok(user)
            }
        },
        Err(reason) => Err(MSG_SAVE_FAILED.to_owned().concat(reason.as_str())),
    }
}

} // verus!
