use auox::auth::{
    advance, authorize_url, redirect_uri, start, token, AuthAction, AuthEvent, AuthFailure,
    AuthState, CALLBACK_PORT,
};
use auox::config::AppConfig;
use auox::token::TokenData;

fn record(tag: &str) -> TokenData {
    TokenData {
        access_token: format!("access-{}", tag),
        expires_in: 600,
        refresh_token_expires_in: 31_536_000,
        refresh_token_absolute_expires_in: 31_536_000,
        token_type: "Bearer".to_string(),
        refresh_token: format!("refresh-{}", tag),
    }
}

fn run(events: Vec<AuthEvent>) -> (AuthState, Vec<AuthAction>) {
    let mut state = start();
    let mut actions = Vec::new();
    for event in events {
        let (next, action) = advance(state, event);
        state = next;
        actions.push(action);
    }
    (state, actions)
}

#[test]
fn flow_starts_by_loading() {
    assert_eq!(start(), AuthState::Loading);
    assert_eq!(token(&start()), None);
}

#[test]
fn valid_stored_record_is_returned_unchanged() {
    let (state, actions) =
        run(vec![AuthEvent::Loaded(Some(record("old"))), AuthEvent::ProbeSucceeded]);
    assert_eq!(state, AuthState::Ready(record("old")));
    assert_eq!(token(&state), Some(&record("old")));
    assert_eq!(
        actions,
        vec![AuthAction::Probe { access_token: "access-old".to_string() }, AuthAction::Finish]
    );
}

#[test]
fn valid_stored_record_never_opens_browser() {
    let (state, actions) = run(vec![
        AuthEvent::Loaded(Some(record("old"))),
        AuthEvent::ProbeSucceeded,
        AuthEvent::RefreshFailed,
        AuthEvent::Loaded(None),
        AuthEvent::ProbeFailed,
        AuthEvent::CodeCaptured("c".to_string()),
        AuthEvent::ExchangeFailed,
        AuthEvent::StoreFailed,
    ]);
    assert_eq!(state, AuthState::Ready(record("old")));
    assert!(!actions.contains(&AuthAction::Authorize));
    assert_eq!(actions[2..], vec![AuthAction::Wait; 6]);
}

#[test]
fn rejected_record_is_refreshed_and_stored() {
    let (state, actions) = run(vec![
        AuthEvent::Loaded(Some(record("old"))),
        AuthEvent::ProbeFailed,
        AuthEvent::Refreshed(record("new")),
        AuthEvent::Stored,
    ]);
    assert_eq!(state, AuthState::Ready(record("new")));
    assert_eq!(
        actions,
        vec![
            AuthAction::Probe { access_token: "access-old".to_string() },
            AuthAction::Refresh { refresh_token: "refresh-old".to_string() },
            AuthAction::Store(record("new")),
            AuthAction::Finish,
        ]
    );
}

#[test]
fn failed_refresh_falls_through_to_browser() {
    let (state, actions) = run(vec![
        AuthEvent::Loaded(Some(record("old"))),
        AuthEvent::ProbeFailed,
        AuthEvent::RefreshFailed,
        AuthEvent::CodeCaptured("the-code".to_string()),
        AuthEvent::Exchanged(record("fresh")),
        AuthEvent::Stored,
    ]);
    assert_eq!(state, AuthState::Ready(record("fresh")));
    assert_eq!(
        actions[2..],
        vec![
            AuthAction::Authorize,
            AuthAction::Exchange { code: "the-code".to_string() },
            AuthAction::Store(record("fresh")),
            AuthAction::Finish,
        ]
    );
}

#[test]
fn missing_record_goes_straight_to_browser() {
    let (state, actions) = run(vec![AuthEvent::Loaded(None)]);
    assert_eq!(state, AuthState::Authorizing);
    assert_eq!(actions, vec![AuthAction::Authorize]);
}

#[test]
fn failed_exchange_is_fatal() {
    let (state, actions) = run(vec![
        AuthEvent::Loaded(None),
        AuthEvent::CodeCaptured("c".to_string()),
        AuthEvent::ExchangeFailed,
    ]);
    assert_eq!(state, AuthState::Failed(AuthFailure::Exchange));
    assert_eq!(actions[2], AuthAction::Abort(AuthFailure::Exchange));
    assert_eq!(token(&state), None);
}

#[test]
fn unreadable_storage_is_fatal() {
    let (state, actions) = run(vec![AuthEvent::LoadFailed]);
    assert_eq!(state, AuthState::Failed(AuthFailure::Storage));
    assert_eq!(actions, vec![AuthAction::Abort(AuthFailure::Storage)]);
}

#[test]
fn unwritable_storage_is_fatal() {
    let (state, actions) = run(vec![
        AuthEvent::Loaded(None),
        AuthEvent::CodeCaptured("c".to_string()),
        AuthEvent::Exchanged(record("fresh")),
        AuthEvent::StoreFailed,
    ]);
    assert_eq!(state, AuthState::Failed(AuthFailure::Storage));
    assert_eq!(actions[3], AuthAction::Abort(AuthFailure::Storage));
}

#[test]
fn misplaced_event_is_waited_out() {
    let (state, action) = advance(AuthState::Authorizing, AuthEvent::ProbeSucceeded);
    assert_eq!(state, AuthState::Authorizing);
    assert_eq!(action, AuthAction::Wait);
    let (state, action) = advance(AuthState::Probing(record("r")), AuthEvent::Stored);
    assert_eq!(state, AuthState::Probing(record("r")));
    assert_eq!(action, AuthAction::Wait);
    let (state, action) = advance(AuthState::Failed(AuthFailure::Exchange), AuthEvent::Loaded(None));
    assert_eq!(state, AuthState::Failed(AuthFailure::Exchange));
    assert_eq!(action, AuthAction::Wait);
}

#[test]
fn duplicate_copies_every_field() {
    assert_eq!(record("x").duplicate(), record("x"));
}

#[test]
fn authorize_url_carries_client_state_redirect_and_bank() {
    let config = AppConfig {
        client_id: "my-client".to_string(),
        client_secret: "SECRET-REDACTED".to_string(),
        financial_institution: "fid-smn".to_string(),
    };
    assert_eq!(
        authorize_url(&config, "n0nce"),
        "https://api.sparebank1.no/oauth/authorize?client_id=my-client&state=n0nce\
         &redirect_uri=http://localhost:8321&finInst=fid-smn&response_type=code"
    );
}

#[test]
fn redirect_goes_to_the_callback_port() {
    assert_eq!(redirect_uri(), format!("http://localhost:{}", CALLBACK_PORT));
}

#[test]
fn abandoned_browser_is_fatal() {
    let (state, actions) = run(vec![AuthEvent::Loaded(None), AuthEvent::CodeMissing]);
    assert_eq!(state, AuthState::Failed(AuthFailure::Authorization));
    assert_eq!(actions[1], AuthAction::Abort(AuthFailure::Authorization));
}
