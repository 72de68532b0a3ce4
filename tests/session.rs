use gaspifs::session::{
    logout_report, normalize_username, step, AuthError, ChallengeKind, GrantReply, GrantTokens,
    LoginAction, LoginEvent, LoginState, LogoutReport, MemoryStore, Session, TokenField,
};

fn s(x: &str) -> String {
    x.to_string()
}

fn tokens(access: Option<&str>, id: Option<&str>, refresh: Option<&str>) -> GrantTokens {
    GrantTokens {
        access_token: access.map(s),
        id_token: id.map(s),
        refresh_token: refresh.map(s),
    }
}

fn granting(user: &str) -> LoginState {
    LoginState::Granting { username: s(user) }
}

#[test]
fn start_with_stored_credential_refreshes() {
    let (state, action) = step(LoginState::Start, LoginEvent::Stored(Some(s("r0"))));
    assert_eq!(state, LoginState::Refreshing { stored: s("r0") });
    assert_eq!(action, LoginAction::Refresh { refresh_token: s("r0") });
}

#[test]
fn start_without_credential_prompts() {
    let (state, action) = step(LoginState::Start, LoginEvent::Stored(None));
    assert_eq!(state, LoginState::AwaitingCredentials);
    assert_eq!(action, LoginAction::AskCredentials);
}

#[test]
fn refresh_without_rotation_keeps_file() {
    let mut store = MemoryStore::new();
    store.save(s("r0"));
    let (_, action) = step(
        LoginState::Refreshing { stored: store.load().unwrap() },
        LoginEvent::Reply(GrantReply::Tokens(tokens(Some("a"), Some("i"), None))),
    );
    assert_eq!(
        action,
        LoginAction::Complete {
            session: Session { access_token: s("a"), identity_token: s("i"), refresh_token: s("r0") },
            persist: None,
        }
    );
    store.record(&action);
    assert_eq!(store.load(), Some(s("r0")));
}

#[test]
fn refresh_with_same_token_keeps_file() {
    let (_, action) = step(
        LoginState::Refreshing { stored: s("r0") },
        LoginEvent::Reply(GrantReply::Tokens(tokens(Some("a"), Some("i"), Some("r0")))),
    );
    assert!(matches!(action, LoginAction::Complete { persist: None, .. }));
}

#[test]
fn refresh_with_rotation_overwrites_file() {
    let mut store = MemoryStore::new();
    store.save(s("r0"));
    let (state, action) = step(
        LoginState::Refreshing { stored: s("r0") },
        LoginEvent::Reply(GrantReply::Tokens(tokens(Some("a"), Some("i"), Some("r1")))),
    );
    assert_eq!(state, LoginState::Finished);
    store.record(&action);
    assert_eq!(store.load(), Some(s("r1")));
    match action {
        LoginAction::Complete { session, .. } => assert_eq!(session.refresh_token, "r1"),
        other => panic!("unexpected {:?}", other),
    }
}

#[test]
fn refresh_failure_falls_back_to_prompt() {
    for reply in [
        GrantReply::Failed(s("network")),
        GrantReply::Rejected,
        GrantReply::Empty,
        GrantReply::Tokens(tokens(None, Some("i"), None)),
    ] {
        let (state, action) = step(LoginState::Refreshing { stored: s("r0") }, LoginEvent::Reply(reply));
        assert_eq!(state, LoginState::AwaitingCredentials);
        assert_eq!(action, LoginAction::AskCredentials);
    }
}

#[test]
fn credentials_are_normalized() {
    let (state, action) = step(
        LoginState::AwaitingCredentials,
        LoginEvent::Credentials { username: s("  Alice.Doe \n"), password: s("Secret") },
    );
    assert_eq!(state, granting("alice.doe"));
    assert_eq!(
        action,
        LoginAction::PasswordGrant { username: s("alice.doe"), password: s("Secret") }
    );
    assert_eq!(normalize_username("BOB"), "bob");
    assert_eq!(normalize_username("\u{3000}\tCarol\u{a0}\u{2028}"), "carol");
    assert_eq!(normalize_username("\u{200b}dave"), "\u{200b}dave");
}

#[test]
fn password_grant_success_persists() {
    let (state, action) = step(
        granting("u"),
        LoginEvent::Reply(GrantReply::Tokens(tokens(Some("a"), Some("i"), Some("r")))),
    );
    assert_eq!(state, LoginState::Finished);
    assert_eq!(
        action,
        LoginAction::Complete {
            session: Session { access_token: s("a"), identity_token: s("i"), refresh_token: s("r") },
            persist: Some(s("r")),
        }
    );
}

#[test]
fn missing_token_fields() {
    let cases = [
        (tokens(None, Some("i"), Some("r")), TokenField::Access),
        (tokens(Some("a"), None, Some("r")), TokenField::Identity),
        (tokens(Some("a"), Some("i"), None), TokenField::Refresh),
    ];
    for (t, field) in cases {
        let (_, action) = step(granting("u"), LoginEvent::Reply(GrantReply::Tokens(t)));
        assert_eq!(action, LoginAction::Fail(AuthError::MissingTokenField(field)));
    }
}

#[test]
fn password_grant_errors() {
    let (_, action) = step(granting("u"), LoginEvent::Reply(GrantReply::Rejected));
    assert_eq!(action, LoginAction::Fail(AuthError::CredentialsRejected));
    let (_, action) = step(granting("u"), LoginEvent::Reply(GrantReply::Failed(s("timeout"))));
    assert_eq!(action, LoginAction::Fail(AuthError::ProviderError(s("timeout"))));
    let (_, action) = step(granting("u"), LoginEvent::Reply(GrantReply::Empty));
    assert!(matches!(action, LoginAction::Fail(AuthError::ProviderError(_))));
}

#[test]
fn unsupported_challenge() {
    let (state, action) = step(
        granting("u"),
        LoginEvent::Reply(GrantReply::Challenge {
            kind: ChallengeKind::Unimplemented(s("NEW_PASSWORD_REQUIRED")),
            session: Some(s("h")),
        }),
    );
    assert_eq!(state, LoginState::Finished);
    assert_eq!(
        action,
        LoginAction::Fail(AuthError::UnsupportedChallenge(s("NEW_PASSWORD_REQUIRED")))
    );
}

fn to_code_prompt() -> LoginState {
    let (state, action) = step(
        granting("u"),
        LoginEvent::Reply(GrantReply::Challenge {
            kind: ChallengeKind::SoftwareTokenMfa,
            session: Some(s("handle")),
        }),
    );
    assert_eq!(action, LoginAction::AskCode);
    let (state, action) = step(state, LoginEvent::Code(s("123456")));
    assert_eq!(
        action,
        LoginAction::RespondToChallenge { handle: s("handle"), username: s("u"), code: s("123456") }
    );
    state
}

#[test]
fn challenge_accepted_matches_direct_grant() {
    let state = to_code_prompt();
    let (_, via_challenge) = step(
        state,
        LoginEvent::Reply(GrantReply::Tokens(tokens(Some("a"), Some("i"), Some("r")))),
    );
    let (_, direct) = step(
        granting("u"),
        LoginEvent::Reply(GrantReply::Tokens(tokens(Some("a"), Some("i"), Some("r")))),
    );
    assert_eq!(via_challenge, direct);
}

#[test]
fn challenge_rejected_writes_nothing() {
    let mut store = MemoryStore::new();
    let state = to_code_prompt();
    let (state, action) = step(state, LoginEvent::Reply(GrantReply::Rejected));
    assert_eq!(state, LoginState::Finished);
    assert_eq!(action, LoginAction::Fail(AuthError::ChallengeRejected));
    store.record(&action);
    assert_eq!(store.load(), None);
}

#[test]
fn challenge_without_session_is_provider_error() {
    let (_, action) = step(
        granting("u"),
        LoginEvent::Reply(GrantReply::Challenge { kind: ChallengeKind::SoftwareTokenMfa, session: None }),
    );
    assert!(matches!(action, LoginAction::Fail(AuthError::ProviderError(_))));
}

#[test]
fn out_of_order_event_fails() {
    let (state, action) = step(LoginState::Finished, LoginEvent::Code(s("1")));
    assert_eq!(state, LoginState::Finished);
    assert!(matches!(action, LoginAction::Fail(AuthError::ProviderError(_))));
}

#[test]
fn logout_twice() {
    let mut store = MemoryStore::new();
    store.save(s("r"));
    assert_eq!(store.clear(), LogoutReport::LoggedOut);
    assert_eq!(store.clear(), LogoutReport::NoActiveSession);
    assert_eq!(store.load(), None);
    assert_eq!(LogoutReport::NoActiveSession.message(), "No active session found.");
    assert_eq!(logout_report(true).message(), "Logged out successfully.");
}
