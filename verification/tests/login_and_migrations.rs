use kolomoni::authentication::{JwtClaims, JwtTokenType, TokenDecoding};
use kolomoni::endpoints::service::{
    administrator_role_set, default_user_role_set, ping_reply, reset_server_reply, roles_after_reset, testing_enabled_reply,
};
use kolomoni::login::{create_claims, login_decision, login_reply, refresh_decision, refresh_reply};
use kolomoni::migrations::{plan_rollback_and_reapply, step_failure, MigrationEntry, MigrationStep, RollbackAndReapplyError};
use kolomoni::models::{PingResponse, Timestamp, UserLoginResponse};
use kolomoni::reasons::{ErrorReason, LoginErrorReason};
use kolomoni::responses::{EndpointError, Reply, ReplyBody};
use kolomoni::roles::{Role, RoleSet};

fn now() -> Timestamp {
    Timestamp { unix_seconds: 1_700_000_000, subsec_nanos: 42 }
}

#[test]
fn login_issues_two_hour_access_and_seven_day_refresh_tokens() {
    let claims = login_decision(Some(9), now()).unwrap();
    assert_eq!(claims.access.user_id, 9);
    assert_eq!(claims.access.token_type, JwtTokenType::Access);
    assert_eq!(claims.access.issued_at, now());
    assert_eq!(claims.access.expires_at, Timestamp { unix_seconds: 1_700_007_200, subsec_nanos: 42 });
    assert_eq!(claims.refresh.token_type, JwtTokenType::Refresh);
    assert_eq!(claims.refresh.expires_at.unix_seconds, 1_700_604_800);
}

#[test]
fn wrong_credentials_are_forbidden() {
    assert_eq!(
        login_decision(None, now()),
        Err(Reply { status: 403, body: ReplyBody::Reason(ErrorReason::Login(LoginErrorReason::InvalidLoginCredentials)), last_modified: None })
    );
}

#[test]
fn refresh_turns_a_refresh_token_into_a_one_day_access_token() {
    let refresh = create_claims(5, Timestamp { unix_seconds: 0, subsec_nanos: 0 }, 604800, JwtTokenType::Refresh);
    let access = refresh_decision(&TokenDecoding::Valid(refresh), now()).unwrap();
    assert_eq!(access.user_id, 5);
    assert_eq!(access.token_type, JwtTokenType::Access);
    assert_eq!(access.expires_at.unix_seconds, 1_700_086_400);
}

#[test]
fn refresh_refusals() {
    let access = JwtClaims { user_id: 5, issued_at: now(), expires_at: now(), token_type: JwtTokenType::Access };
    let refusal = |status, reason| Err(Reply { status, body: ReplyBody::Reason(ErrorReason::Login(reason)), last_modified: None });
    assert_eq!(refresh_decision(&TokenDecoding::Valid(access), now()), refusal(400, LoginErrorReason::NotARefreshToken));
    assert_eq!(refresh_decision(&TokenDecoding::Expired(access), now()), refusal(403, LoginErrorReason::ExpiredRefreshToken));
    assert_eq!(
        refresh_decision(&TokenDecoding::Invalid { reason: "bad signature".into() }, now()),
        refusal(400, LoginErrorReason::InvalidRefreshJsonWebToken)
    );
}

#[test]
fn login_replies_carry_the_tokens() {
    let reply = login_reply("a".into(), "r".into()).unwrap();
    assert_eq!(reply.body, ReplyBody::LoginTokens(UserLoginResponse { access_token: "a".into(), refresh_token: "r".into() }));
    assert_eq!(refresh_reply("n".into()).unwrap().status, 200);
}

fn migration(name: &str, privileged: bool, rollback: bool) -> MigrationEntry {
    MigrationEntry { identifier: name.into(), run_as_privileged_user: privileged, has_rollback_script: rollback }
}

#[test]
fn reset_skips_leading_privileged_migrations_and_mirrors_the_rest() {
    let migrations = vec![
        migration("M0001 roles", true, false),
        migration("M0002 users", false, true),
        migration("M0003 words", false, true),
        migration("M0004 search", false, true),
    ];
    let steps = plan_rollback_and_reapply(&migrations, true, String::new()).unwrap();
    assert_eq!(
        steps,
        vec![
            MigrationStep::RollBack { index: 3 },
            MigrationStep::RollBack { index: 2 },
            MigrationStep::RollBack { index: 1 },
            MigrationStep::Apply { index: 1 },
            MigrationStep::Apply { index: 2 },
            MigrationStep::Apply { index: 3 },
        ]
    );
    let all_privileged = vec![migration("M0001 roles", true, false)];
    assert_eq!(plan_rollback_and_reapply(&all_privileged, true, String::new()).unwrap(), vec![]);
}

#[test]
fn reset_refusals() {
    let migrations = vec![migration("M0001", true, false), migration("M0002", false, false), migration("M0003", true, true)];
    assert_eq!(
        plan_rollback_and_reapply(&migrations, false, "diverged".into()),
        Err(RollbackAndReapplyError::MigrationIntegrityError { reason: "diverged".into() })
    );
    assert_eq!(
        plan_rollback_and_reapply(&migrations, true, String::new()),
        Err(RollbackAndReapplyError::MissingRollbackScript { migration: "M0002".into() })
    );
    let migrations = vec![migration("M0001", false, true), migration("M0002", true, true)];
    assert_eq!(
        plan_rollback_and_reapply(&migrations, true, String::new()),
        Err(RollbackAndReapplyError::UnableToRollbackPrivilegedMigration { migration: "M0002".into() })
    );
    assert_eq!(
        step_failure(&migrations, MigrationStep::Apply { index: 0 }, "boom".into()),
        RollbackAndReapplyError::MigrationApplyError { migration: "M0001".into(), description: "boom".into() }
    );
    assert_eq!(
        step_failure(&migrations, MigrationStep::RollBack { index: 1 }, "boom".into()).message(),
        "failed to rollback migration M0002"
    );
}

#[test]
fn reset_server_replies() {
    assert_eq!(reset_server_reply(&Ok(())), Ok(Reply::ok_empty()));
    let error = RollbackAndReapplyError::MissingRollbackScript { migration: "M0002".into() };
    assert_eq!(
        reset_server_reply(&Err(error)),
        Err(EndpointError::InternalGenericError { description: "migration M0002 does not have a rollback script".into() })
    );
}

#[test]
fn service_replies_and_role_sets() {
    assert_eq!(ping_reply().unwrap().body, ReplyBody::Ping(PingResponse { ok: true }));
    assert_eq!(testing_enabled_reply(), Ok(Reply::ok_empty()));
    assert_eq!(administrator_role_set().role_names(), vec!["administrator".to_string()]);
    assert_eq!(default_user_role_set().role_names(), vec!["user".to_string()]);
    assert!(roles_after_reset(&RoleSet::new_empty()).has_role(Role::User));
}
