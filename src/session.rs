//! The authentication session lifecycle: refresh with a stored credential,
//! fall back to an interactive password grant, answer a one-time-code
//! challenge, and decide what is persisted.
//!
//! The decisions are a step function from a state and an event to the next
//! state and an action; the caller performs the action (a provider exchange,
//! a prompt, a write of the credential file) and hands back what came of it.

use vstd::prelude::*;

verus! {

/// The three tokens of an authenticated session. The identity token
/// authorizes API calls; only the refresh token is persisted.
#[derive(Debug, PartialEq, Eq)]
pub struct Session {
    pub access_token: String,
    pub identity_token: String,
    pub refresh_token: String,
}

/// A token that a grant's result was expected to carry.
#[derive(Debug, Clone, Copy, PartialEq, Eq, Structural)]
pub enum TokenField {
    Access,
    Identity,
    Refresh,
}

#[derive(Debug, PartialEq, Eq)]
pub enum AuthError {
    CredentialsRejected,
    ChallengeRejected,
    UnsupportedChallenge(String),
    ProviderError(String),
    MissingTokenField(TokenField),
}

/// The tokens of a grant's result, each of which the provider may omit.
#[derive(Debug, PartialEq, Eq)]
pub struct GrantTokens {
    pub access_token: Option<String>,
    pub id_token: Option<String>,
    pub refresh_token: Option<String>,
}

#[derive(Debug, PartialEq, Eq)]
pub enum ChallengeKind {
    SoftwareTokenMfa,
    Unimplemented(String),
}

/// What an exchange with the identity provider came to.
#[derive(Debug, PartialEq, Eq)]
pub enum GrantReply {
    /// A result with tokens.
    Tokens(GrantTokens),
    /// A challenge instead of tokens, with the provider's session handle.
    Challenge { kind: ChallengeKind, session: Option<String> },
    /// Neither tokens nor a challenge.
    Empty,
    /// The provider refused the credentials or the code.
    Rejected,
    /// A transport or protocol failure.
    Failed(String),
}

#[derive(Debug, PartialEq, Eq)]
pub enum LoginState {
    Start,
    Refreshing { stored: String },
    AwaitingCredentials,
    Granting { username: String },
    AwaitingCode { username: String, handle: String },
    Responding,
    Finished,
}

#[derive(Debug, PartialEq, Eq)]
pub enum LoginEvent {
    /// The persisted credential, if there is one.
    Stored(Option<String>),
    /// The provider's answer to the last exchange.
    Reply(GrantReply),
    /// The username and password as the user typed them.
    Credentials { username: String, password: String },
    /// The one-time code as the user typed it.
    Code(String),
}

#[derive(Debug, PartialEq, Eq)]
pub enum LoginAction {
    Refresh { refresh_token: String },
    AskCredentials,
    PasswordGrant { username: String, password: String },
    AskCode,
    RespondToChallenge { handle: String, username: String, code: String },
    /// Authenticated; `persist` is the refresh token to write, if any.
    Complete { session: Session, persist: Option<String> },
    Fail(AuthError),
}

/// The characters of Unicode's White_Space property, those for which
/// `char::is_whitespace` holds.
pub open spec fn is_white_space(c: char) -> bool {
    ('\u{9}' <= c <= '\u{d}') || c == ' ' || c == '\u{85}' || c == '\u{a0}' || c == '\u{1680}'
        || ('\u{2000}' <= c <= '\u{200a}') || c == '\u{2028}' || c == '\u{2029}' || c
        == '\u{202f}' || c == '\u{205f}' || c == '\u{3000}'
}

pub open spec fn trimmed_start(s: Seq<char>) -> Seq<char>
    decreases s.len(),
{
    if s.len() > 0 && is_white_space(s[0]) {
        trimmed_start(s.drop_first())
    } else {
        s
    }
}

pub open spec fn trimmed_end(s: Seq<char>) -> Seq<char>
    decreases s.len(),
{
    if s.len() > 0 && is_white_space(s.last()) {
        trimmed_end(s.drop_last())
    } else {
        s
    }
}

/// Text with leading and trailing whitespace removed.
pub open spec fn trimmed(s: Seq<char>) -> Seq<char> {
    trimmed_end(trimmed_start(s))
}

/// Text with every character mapped to lowercase.
pub uninterp spec fn lowercased(s: Seq<char>) -> Seq<char>;

pub open spec fn normalized_username(raw: Seq<char>) -> Seq<char> {
    lowercased(trimmed(raw))
}

/// Relies on `str::trim`: the text without its leading and trailing
/// characters for which `char::is_whitespace` holds.
#[verifier::external_body]
fn trim(s: &str) -> (r: &str)
    ensures
        r@ == trimmed(s@),
{
    s.trim()
}

/// Relies on `str::to_lowercase`: the lowercase form of the text.
#[verifier::external_body]
fn to_lowercase(s: &str) -> (r: String)
    ensures
        r@ == lowercased(s@),
{
    s.to_lowercase()
}

/// The username as sent to the provider: trimmed and lowercased.
pub fn normalize_username(raw: &str) -> (r: String)
    ensures
        r@ == normalized_username(raw@),
{
    to_lowercase(trim(raw))
}

pub open spec fn session_is(s: Session, access: Seq<char>, id: Seq<char>, refresh: Seq<char>) -> bool {
    s.access_token@ == access && s.identity_token@ == id && s.refresh_token@ == refresh
}

/// The action after a password grant or a challenge response returned
/// tokens: the first missing token fails, else the session is complete and
/// its refresh token is persisted.
pub open spec fn grant_outcome(t: GrantTokens, a: LoginAction) -> bool {
    if t.access_token is None {
        a == LoginAction::Fail(AuthError::MissingTokenField(TokenField::Access))
    } else if t.id_token is None {
        a == LoginAction::Fail(AuthError::MissingTokenField(TokenField::Identity))
    } else if t.refresh_token is None {
        a == LoginAction::Fail(AuthError::MissingTokenField(TokenField::Refresh))
    } else {
        match a {
            LoginAction::Complete { session, persist } => session_is(
                session,
                t.access_token->0@,
                t.id_token->0@,
                t.refresh_token->0@,
            ) && persist is Some && persist->0@ == t.refresh_token->0@,
            _ => false,
        }
    }
}

/// Whether a refresh grant's result rotated the stored refresh token.
pub open spec fn rotates(t: GrantTokens, stored: Seq<char>) -> bool {
    t.refresh_token is Some && t.refresh_token->0@ != stored
}

/// The action after a refresh grant returned an access and an identity
/// token: the session keeps the stored refresh token unless the provider
/// rotated it, and only a rotated token is persisted.
pub open spec fn refresh_outcome(t: GrantTokens, stored: Seq<char>, a: LoginAction) -> bool {
    match a {
        LoginAction::Complete { session, persist } => if rotates(t, stored) {
            session_is(session, t.access_token->0@, t.id_token->0@, t.refresh_token->0@)
                && persist is Some && persist->0@ == t.refresh_token->0@
        } else {
            session_is(session, t.access_token->0@, t.id_token->0@, stored) && persist is None
        },
        _ => false,
    }
}

pub open spec fn fails_with_provider_error(s2: LoginState, a: LoginAction) -> bool {
    s2 == LoginState::Finished && a is Fail && a->Fail_0 is ProviderError
}

/// The transition relation of the login flow.
pub open spec fn step_post(s: LoginState, e: LoginEvent, s2: LoginState, a: LoginAction) -> bool {
    match s {
        LoginState::Start => match e {
            LoginEvent::Stored(Some(t)) => s2 is Refreshing && s2->stored@ == t@ && a is Refresh
                && a->refresh_token@ == t@,
            LoginEvent::Stored(None) => s2 == LoginState::AwaitingCredentials && a
                == LoginAction::AskCredentials,
            _ => fails_with_provider_error(s2, a),
        },
        LoginState::Refreshing { stored } => match e {
            LoginEvent::Reply(reply) => if reply is Tokens && reply->Tokens_0.access_token is Some
                && reply->Tokens_0.id_token is Some {
                s2 == LoginState::Finished && refresh_outcome(reply->Tokens_0, stored@, a)
            } else {
                s2 == LoginState::AwaitingCredentials && a == LoginAction::AskCredentials
            },
            _ => fails_with_provider_error(s2, a),
        },
        LoginState::AwaitingCredentials => match e {
            LoginEvent::Credentials { username, password } => s2 is Granting && s2->Granting_username@
                == normalized_username(username@) && a is PasswordGrant && a->PasswordGrant_username@
                == normalized_username(username@) && a->PasswordGrant_password@ == password@,
            _ => fails_with_provider_error(s2, a),
        },
        LoginState::Granting { username } => match e {
            LoginEvent::Reply(reply) => match reply {
                GrantReply::Tokens(t) => s2 == LoginState::Finished && grant_outcome(t, a),
                GrantReply::Challenge { kind, session } => match kind {
                    ChallengeKind::SoftwareTokenMfa => match session {
                        Some(h) => s2 is AwaitingCode && s2->AwaitingCode_username@ == username@
                            && s2->handle@ == h@ && a == LoginAction::AskCode,
                        None => fails_with_provider_error(s2, a),
                    },
                    ChallengeKind::Unimplemented(name) => s2 == LoginState::Finished && a is Fail
                        && a->Fail_0 is UnsupportedChallenge && a->Fail_0->UnsupportedChallenge_0@
                        == name@,
                },
                GrantReply::Rejected => s2 == LoginState::Finished && a == LoginAction::Fail(
                    AuthError::CredentialsRejected,
                ),
                GrantReply::Failed(d) => fails_with_provider_error(s2, a)
                    && a->Fail_0->ProviderError_0@ == d@,
                GrantReply::Empty => fails_with_provider_error(s2, a),
            },
            _ => fails_with_provider_error(s2, a),
        },
        LoginState::AwaitingCode { username, handle } => match e {
            LoginEvent::Code(c) => s2 == LoginState::Responding && a is RespondToChallenge
                && a->RespondToChallenge_handle@ == handle@ && a->RespondToChallenge_username@
                == username@ && a->code@ == c@,
            _ => fails_with_provider_error(s2, a),
        },
        LoginState::Responding => match e {
            LoginEvent::Reply(reply) => match reply {
                GrantReply::Tokens(t) => s2 == LoginState::Finished && grant_outcome(t, a),
                GrantReply::Failed(d) => fails_with_provider_error(s2, a)
                    && a->Fail_0->ProviderError_0@ == d@,
                _ => s2 == LoginState::Finished && a == LoginAction::Fail(
                    AuthError::ChallengeRejected,
                ),
            },
            _ => fails_with_provider_error(s2, a),
        },
        LoginState::Finished => fails_with_provider_error(s2, a),
    }
}

fn out_of_order() -> (r: (LoginState, LoginAction))
    ensures
        fails_with_provider_error(r.0, r.1),
{
    (LoginState::Finished, LoginAction::Fail(AuthError::ProviderError("unexpected event".to_owned())))
}

fn provider_failure(detail: String) -> (r: (LoginState, LoginAction))
    ensures
        fails_with_provider_error(r.0, r.1),
        r.1->Fail_0->ProviderError_0@ == detail@,
{
    (LoginState::Finished, LoginAction::Fail(AuthError::ProviderError(detail)))
}

fn complete_grant(t: GrantTokens) -> (a: LoginAction)
    ensures
        grant_outcome(t, a),
{
    let GrantTokens { access_token, id_token, refresh_token } = t;
    match access_token {
        None => LoginAction::Fail(AuthError::MissingTokenField(TokenField::Access)),
        Some(access) => match id_token {
            None => LoginAction::Fail(AuthError::MissingTokenField(TokenField::Identity)),
            Some(id) => match refresh_token {
                None => LoginAction::Fail(AuthError::MissingTokenField(TokenField::Refresh)),
                Some(refresh) => {
                    let persist = refresh.clone();
                    LoginAction::Complete {
                        session: Session {
                            access_token: access,
                            identity_token: id,
                            refresh_token: refresh,
                        },
                        persist: Some(persist),
                    }
                },
            },
        },
    }
}

fn complete_refresh(access: String, id: String, rotated: Option<String>, stored: String) -> (a:
    LoginAction)
    ensures
        refresh_outcome(
            GrantTokens { access_token: Some(access), id_token: Some(id), refresh_token: rotated },
            stored@,
            a,
        ),
{
    match rotated {
        Some(r) if r != stored => {
            let persist = r.clone();
            LoginAction::Complete {
                session: Session { access_token: access, identity_token: id, refresh_token: r },
                persist: Some(persist),
            }
        },
        _ => LoginAction::Complete {
            session: Session { access_token: access, identity_token: id, refresh_token: stored },
            persist: None,
        },
    }
}

/// One step of the login flow: the next state and the action to perform.
pub fn step(state: LoginState, event: LoginEvent) -> (r: (LoginState, LoginAction))
    ensures
        step_post(state, event, r.0, r.1),
{
    match state {
        LoginState::Start => match event {
            LoginEvent::Stored(Some(t)) => {
                let sent = t.clone();
                (LoginState::Refreshing { stored: t }, LoginAction::Refresh { refresh_token: sent })
            },
            LoginEvent::Stored(None) => (LoginState::AwaitingCredentials, LoginAction::AskCredentials),
            _ => out_of_order(),
        },
        LoginState::Refreshing { stored } => match event {
            LoginEvent::Reply(GrantReply::Tokens(t)) => {
                let GrantTokens { access_token, id_token, refresh_token } = t;
                match (access_token, id_token) {
                    (Some(access), Some(id)) => (
                        LoginState::Finished,
                        complete_refresh(access, id, refresh_token, stored),
                    ),
                    _ => (LoginState::AwaitingCredentials, LoginAction::AskCredentials),
                }
            },
            LoginEvent::Reply(_) => (LoginState::AwaitingCredentials, LoginAction::AskCredentials),
            _ => out_of_order(),
        },
        LoginState::AwaitingCredentials => match event {
            LoginEvent::Credentials { username, password } => {
                let name = normalize_username(username.as_str());
                let sent = name.clone();
                (
                    LoginState::Granting { username: name },
                    LoginAction::PasswordGrant { username: sent, password },
                )
            },
            _ => out_of_order(),
        },
        LoginState::Granting { username } => match event {
            LoginEvent::Reply(reply) => match reply {
                GrantReply::Tokens(t) => (LoginState::Finished, complete_grant(t)),
                GrantReply::Challenge { kind, session } => match kind {
                    ChallengeKind::SoftwareTokenMfa => match session {
                        Some(handle) => (
                            LoginState::AwaitingCode { username, handle },
                            LoginAction::AskCode,
                        ),
                        None => provider_failure("challenge without a session".to_owned()),
                    },
                    ChallengeKind::Unimplemented(name) => (
                        LoginState::Finished,
                        LoginAction::Fail(AuthError::UnsupportedChallenge(name)),
                    ),
                },
                GrantReply::Rejected => (
                    LoginState::Finished,
                    LoginAction::Fail(AuthError::CredentialsRejected),
                ),
                GrantReply::Failed(d) => provider_failure(d),
                GrantReply::Empty => provider_failure("authentication result is missing".to_owned()),
            },
            _ => out_of_order(),
        },
        LoginState::AwaitingCode { username, handle } => match event {
            LoginEvent::Code(code) => (
                LoginState::Responding,
                LoginAction::RespondToChallenge { handle, username, code },
            ),
            _ => out_of_order(),
        },
        LoginState::Responding => match event {
            LoginEvent::Reply(reply) => match reply {
                GrantReply::Tokens(t) => (LoginState::Finished, complete_grant(t)),
                GrantReply::Failed(d) => provider_failure(d),
                _ => (LoginState::Finished, LoginAction::Fail(AuthError::ChallengeRejected)),
            },
            _ => out_of_order(),
        },
        LoginState::Finished => out_of_order(),
    }
}

/// The persisted credential after an action is carried out: overwritten by
/// the refresh token to persist, untouched by anything else.
pub open spec fn stored_after(stored: Option<Seq<char>>, a: LoginAction) -> Option<Seq<char>> {
    match a {
        LoginAction::Complete { session: _, persist: Some(p) } => Some(p@),
        _ => stored,
    }
}

/// After a successful refresh the credential read back equals the session's
/// refresh token; it is the stored one, byte for byte, exactly when the
/// provider did not rotate it, and the rotated token otherwise.
pub proof fn lemma_refresh_round_trip(
    stored: String,
    t: GrantTokens,
    s2: LoginState,
    a: LoginAction,
)
    requires
        t.access_token is Some,
        t.id_token is Some,
        step_post(LoginState::Refreshing { stored }, LoginEvent::Reply(GrantReply::Tokens(t)), s2, a),
    ensures
        a is Complete,
        stored_after(Some(stored@), a) == Some(a->Complete_session.refresh_token@),
        (stored_after(Some(stored@), a) == Some(stored@)) <==> !rotates(t, stored@),
        rotates(t, stored@) ==> stored_after(Some(stored@), a) == Some(t.refresh_token->0@),
{
}

/// Two outcomes hand out the same tokens and persist the same credential.
pub open spec fn same_outcome(a: LoginAction, b: LoginAction) -> bool {
    match (a, b) {
        (
            LoginAction::Complete { session: s, persist: p },
            LoginAction::Complete { session: t, persist: q },
        ) => session_is(s, t.access_token@, t.identity_token@, t.refresh_token@) && p is Some
            && q is Some && p->0@ == q->0@,
        _ => a == b,
    }
}

/// A password grant answered by a one-time-code challenge, the code, and a
/// reply with tokens end as a direct password grant with those tokens does;
/// the challenge response carries the provider's handle, the username and
/// the code.
pub proof fn lemma_challenge_accepted(
    username: String,
    handle: String,
    code: String,
    t: GrantTokens,
    s1: LoginState,
    a1: LoginAction,
    s2: LoginState,
    a2: LoginAction,
    s3: LoginState,
    a3: LoginAction,
    sd: LoginState,
    ad: LoginAction,
)
    requires
        step_post(
            LoginState::Granting { username },
            LoginEvent::Reply(
                GrantReply::Challenge { kind: ChallengeKind::SoftwareTokenMfa, session: Some(handle) },
            ),
            s1,
            a1,
        ),
        step_post(s1, LoginEvent::Code(code), s2, a2),
        step_post(s2, LoginEvent::Reply(GrantReply::Tokens(t)), s3, a3),
        step_post(LoginState::Granting { username }, LoginEvent::Reply(GrantReply::Tokens(t)), sd, ad),
    ensures
        a1 == LoginAction::AskCode,
        a2 is RespondToChallenge && a2->RespondToChallenge_handle@ == handle@
            && a2->RespondToChallenge_username@ == username@ && a2->code@ == code@,
        s3 == LoginState::Finished && sd == LoginState::Finished,
        same_outcome(a3, ad),
{
}

/// A challenge whose code the provider rejects fails with
/// `ChallengeRejected` and leaves the persisted credential untouched.
pub proof fn lemma_challenge_rejected(
    username: String,
    handle: String,
    code: String,
    stored: Option<Seq<char>>,
    s1: LoginState,
    a1: LoginAction,
    s2: LoginState,
    a2: LoginAction,
    s3: LoginState,
    a3: LoginAction,
)
    requires
        step_post(
            LoginState::Granting { username },
            LoginEvent::Reply(
                GrantReply::Challenge { kind: ChallengeKind::SoftwareTokenMfa, session: Some(handle) },
            ),
            s1,
            a1,
        ),
        step_post(s1, LoginEvent::Code(code), s2, a2),
        step_post(s2, LoginEvent::Reply(GrantReply::Rejected), s3, a3),
    ensures
        a3 == LoginAction::Fail(AuthError::ChallengeRejected),
        stored_after(stored, a1) == stored,
        stored_after(stored, a2) == stored,
        stored_after(stored, a3) == stored,
{
}

/// What a logout found.
#[derive(Debug, Clone, Copy, PartialEq, Eq, Structural)]
pub enum LogoutReport {
    LoggedOut,
    NoActiveSession,
}

/// The report of a logout that found a credential or did not.
pub fn logout_report(had_credential: bool) -> (r: LogoutReport)
    ensures
        r == (if had_credential {
            LogoutReport::LoggedOut
        } else {
            LogoutReport::NoActiveSession
        }),
{
    if had_credential {
        LogoutReport::LoggedOut
    } else {
        LogoutReport::NoActiveSession
    }
}

impl LogoutReport {
    /// The line shown to the user.
    pub fn message(&self) -> (r: String)
        ensures
            *self == LogoutReport::LoggedOut ==> r@ == "Logged out successfully."@,
            *self == LogoutReport::NoActiveSession ==> r@ == "No active session found."@,
    {
        match self {
            LogoutReport::LoggedOut => "Logged out successfully.".to_owned(),
            LogoutReport::NoActiveSession => "No active session found.".to_owned(),
        }
    }
}

/// A logout: the credential is gone afterwards, and the report says whether
/// there was one.
pub open spec fn logout_post(
    before: Option<Seq<char>>,
    after: Option<Seq<char>>,
    r: LogoutReport,
) -> bool {
    after is None && r == (if before is Some {
        LogoutReport::LoggedOut
    } else {
        LogoutReport::NoActiveSession
    })
}

/// Logging out twice in a row: the second logout succeeds, changes nothing
/// and reports that there is no active session.
pub proof fn lemma_logout_idempotent(
    s0: Option<Seq<char>>,
    s1: Option<Seq<char>>,
    r1: LogoutReport,
    s2: Option<Seq<char>>,
    r2: LogoutReport,
)
    requires
        logout_post(s0, s1, r1),
        logout_post(s1, s2, r2),
    ensures
        r2 == LogoutReport::NoActiveSession,
        s2 == s1,
{
}

/// A credential store held in memory: at most one refresh token.
#[derive(Debug)]
pub struct MemoryStore {
    credential: Option<String>,
}

impl View for MemoryStore {
    type V = Option<Seq<char>>;

    closed spec fn view(&self) -> Option<Seq<char>> {
        match self.credential {
            Some(c) => Some(c@),
            None => None,
        }
    }
}

impl MemoryStore {
    pub fn new() -> (r: MemoryStore)
        ensures
            r@ is None,
    {
        MemoryStore { credential: None }
    }

    pub fn load(&self) -> (r: Option<String>)
        ensures
            r is Some <==> self@ is Some,
            r is Some ==> r->0@ == self@->0,
    {
        match &self.credential {
            Some(c) => Some(c.clone()),
            None => None,
        }
    }

    pub fn save(&mut self, token: String)
        ensures
            final(self)@ == Some(token@),
    {
        self.credential = Some(token);
    }

    /// Removes the credential, if any.
    pub fn clear(&mut self) -> (r: LogoutReport)
        ensures
            logout_post(old(self)@, final(self)@, r),
    {
        let r = logout_report(self.credential.is_some());
        self.credential = None;
        r
    }

    /// Carries out what an action asks of the store: a completed login
    /// overwrites the credential with the token to persist.
    pub fn record(&mut self, a: &LoginAction)
        ensures
            final(self)@ == stored_after(old(self)@, *a),
    {
        if let LoginAction::Complete { session: _, persist: Some(p) } = a {
            self.save(p.clone());
        }
    }
}

} // verus!
