use auth_guard::config::auth_middleware::{
    failure_message, request_exit, Admission, RequestExit,
};
use auth_guard::dto::auth_dto::RoleRelPathDto;
use auth_guard::model::state::PermissionTable;
use auth_guard::model::user::Role;
use auth_guard::service::auth_service::{
    authorize_claims, collect_role_names, judge_grant, judge_password, AuthError,
};
use auth_guard::util::token_util::{judge_claims, DecodeFault, TokenClaims, TokenError};

fn claims(exp: usize, roles: &[&str]) -> TokenClaims {
    TokenClaims {
        user_id: 4,
        username: "ida".to_string(),
        exp,
        roles: roles.iter().map(|r| r.to_string()).collect(),
    }
}

fn grant(role: &str, pattern: &str) -> RoleRelPathDto {
    RoleRelPathDto { role_name: role.to_string(), resource_value: pattern.to_string() }
}

fn role(name: Option<&str>) -> Role {
    Role {
        id: None,
        create_time: None,
        creator_id: None,
        update_time: None,
        updater_id: None,
        is_delete: None,
        del_unique_key: None,
        role_name: name.map(|n| n.to_string()),
        role_desc: None,
    }
}

#[test]
fn opened_claims_are_judged_by_the_clock_alone() {
    let accepted = judge_claims(Ok(claims(10, &["a"])), 10).unwrap();
    assert_eq!(accepted.user_id, 4);
    assert_eq!(accepted.username, "ida");
    assert_eq!(accepted.exp, 10);
    assert_eq!(accepted.roles, vec!["a".to_string()]);
    assert!(judge_claims(Ok(claims(10, &[])), 0).is_ok());
    assert_eq!(judge_claims(Ok(claims(10, &[])), 11).unwrap_err(), TokenError::Expired);
    assert_eq!(judge_claims(Ok(claims(0, &[])), 1).unwrap_err(), TokenError::Expired);
    assert!(judge_claims(Ok(claims(usize::MAX, &[])), usize::MAX).is_ok());
}

#[test]
fn fault_of_opening_stays_whatever_the_clock_says() {
    for now in [0, 10, usize::MAX] {
        assert_eq!(
            judge_claims(Err(DecodeFault::InvalidFormat), now).unwrap_err(),
            TokenError::InvalidFormat
        );
        assert_eq!(
            judge_claims(Err(DecodeFault::InvalidSignature), now).unwrap_err(),
            TokenError::InvalidSignature
        );
    }
}

#[test]
fn one_grant_ends_the_check_or_lets_it_go_on() {
    let g = grant("admin", "^/admin/.*$");
    assert_eq!(judge_grant(Some(true), &g), Some(Ok(true)));
    assert_eq!(judge_grant(Some(false), &g), None);
    assert_eq!(
        judge_grant(None, &g),
        Some(Err(AuthError::InvalidPatternConfig {
            role: "admin".to_string(),
            pattern: "^/admin/.*$".to_string(),
        }))
    );
}

#[test]
fn password_verdict_decides_the_login() {
    assert_eq!(judge_password(Some(9), Some(true)), Ok(9));
    assert_eq!(judge_password(None, Some(true)), Err("用户ID为空".to_string()));
    assert_eq!(judge_password(Some(9), Some(false)), Err("密码错误".to_string()));
    assert_eq!(judge_password(None, Some(false)), Err("密码错误".to_string()));
    assert_eq!(judge_password(Some(9), None), Err("密码验证失败".to_string()));
}

#[test]
fn validated_claims_are_held_against_the_table() {
    let table = PermissionTable::from_entries(vec![
        grant("admin", "^/admin/.*$"),
        grant("bad", "(unterminated"),
    ]);
    assert_eq!(authorize_claims(Ok(claims(1, &["admin"])), "/admin/x", &table), Ok(true));
    assert_eq!(
        authorize_claims(Ok(claims(1, &["admin"])), "/x", &table),
        Err(AuthError::Unauthorized)
    );
    assert_eq!(
        authorize_claims(Ok(claims(1, &["bad", "admin"])), "/admin/x", &table),
        Err(AuthError::InvalidPatternConfig {
            role: "bad".to_string(),
            pattern: "(unterminated".to_string(),
        })
    );
    assert_eq!(
        authorize_claims(Err(TokenError::Expired), "/admin/x", &table),
        Err(AuthError::Expired)
    );
    assert_eq!(
        authorize_claims(Err(TokenError::InvalidSignature), "/admin/x", &table),
        Err(AuthError::InvalidSignature)
    );
    assert_eq!(
        authorize_claims(Err(TokenError::InvalidFormat), "/admin/x", &table),
        Err(AuthError::InvalidFormat)
    );
    assert_eq!(
        authorize_claims(Err(TokenError::Signing), "/admin/x", &table),
        Err(AuthError::InvalidFormat)
    );
}

#[test]
fn role_names_skip_roles_without_a_name() {
    assert_eq!(collect_role_names(&Vec::new()), Vec::<String>::new());
    assert_eq!(collect_role_names(&vec![role(None), role(None)]), Vec::<String>::new());
    assert_eq!(
        collect_role_names(&vec![role(Some("b")), role(None), role(Some("a")), role(Some("b"))]),
        vec!["b".to_string(), "a".to_string(), "b".to_string()]
    );
}

#[test]
fn every_decision_has_its_exit() {
    let broken =
        AuthError::InvalidPatternConfig { role: "r".to_string(), pattern: "(".to_string() };
    let cases = [
        (Admission::Forward, RequestExit::Forwarded),
        (Admission::Reject(AuthError::MissingCredential), RequestExit::MissingCredential),
        (Admission::Reject(AuthError::InvalidFormat), RequestExit::DecodeFailed),
        (Admission::Reject(AuthError::InvalidSignature), RequestExit::DecodeFailed),
        (Admission::Reject(AuthError::Expired), RequestExit::Expired),
        (Admission::Reject(AuthError::Unauthorized), RequestExit::Unauthorized),
        (Admission::Reject(broken), RequestExit::Misconfigured),
    ];
    for (decision, exit) in cases {
        assert_eq!(request_exit(&decision), exit);
    }
}

#[test]
fn every_failure_has_its_words() {
    assert_eq!(failure_message(&AuthError::MissingCredential), "未授权");
    assert_eq!(failure_message(&AuthError::InvalidFormat), "token验证失败: InvalidToken");
    assert_eq!(failure_message(&AuthError::InvalidSignature), "token验证失败: InvalidSignature");
    assert_eq!(failure_message(&AuthError::Expired), "token已过期");
    assert_eq!(failure_message(&AuthError::Unauthorized), "权限验证失败");
    assert_eq!(
        failure_message(&AuthError::InvalidPatternConfig {
            role: "admin".to_string(),
            pattern: "(unterminated".to_string(),
        }),
        "无效的正则表达式: (unterminated, 角色: admin"
    );
}
