//! Getting a valid access token: use the stored one if the bank still takes
//! it, else refresh it, else send the user through the browser.
//!
//! The flow is a state machine. Its driver performs each action (read the
//! stored record, probe, refresh, open the browser and wait for the redirect,
//! exchange the code, write the record) and reports what came of it.

use crate::config::AppConfig;
use crate::token::TokenData;
use vstd::prelude::*;

verus! {

/// The port on which the redirect from the browser is awaited.
pub const CALLBACK_PORT: u16 = 8321;

/// Why the flow ended without a token.
#[derive(Clone, Copy, Debug, PartialEq, Eq)]
pub enum AuthFailure {
    /// The stored record could not be read or written.
    Storage,
    /// No authorization code came back from the browser.
    Authorization,
    /// The bank did not exchange the authorization code for tokens.
    Exchange,
}

/// Where the flow stands.
#[derive(Clone, Debug, PartialEq, Eq)]
pub enum AuthState {
    /// The stored record is being read.
    Loading,
    /// The stored record is being probed.
    Probing(TokenData),
    /// The stored record was turned down; its refresh token is being used.
    Refreshing,
    /// The browser is open; the redirect with the code is awaited.
    Authorizing,
    /// The code is being exchanged for tokens.
    Exchanging,
    /// New tokens are being written to storage.
    Storing(TokenData),
    /// The flow ended with a valid record.
    Ready(TokenData),
    /// The flow ended without one.
    Failed(AuthFailure),
}

/// What the driver reports.
#[derive(Clone, Debug, PartialEq, Eq)]
pub enum AuthEvent {
    /// Storage was read: it held this record, or none.
    Loaded(Option<TokenData>),
    /// Storage holds something that is not a record, or cannot be reached.
    LoadFailed,
    ProbeSucceeded,
    ProbeFailed,
    Refreshed(TokenData),
    RefreshFailed,
    /// The redirect arrived with this authorization code.
    CodeCaptured(String),
    /// The wait for the redirect was given up.
    CodeMissing,
    Exchanged(TokenData),
    ExchangeFailed,
    Stored,
    StoreFailed,
}

/// What the driver is to do next.
#[derive(Clone, Debug, PartialEq, Eq)]
pub enum AuthAction {
    /// Probe the bank with this access token.
    Probe { access_token: String },
    /// Ask the bank for new tokens with this refresh token.
    Refresh { refresh_token: String },
    /// Open the browser at the authorize URL and listen for the redirect.
    Authorize,
    /// Exchange this authorization code for tokens.
    Exchange { code: String },
    /// Write this record to storage, replacing what is there.
    Store(TokenData),
    /// The flow is over: the state holds the record.
    Finish,
    /// The flow is over: there is no token, and the program cannot go on.
    Abort(AuthFailure),
    /// The event does not belong to the state: keep waiting.
    Wait,
}

/// The state in which the flow starts. The driver's first step is to read
/// the stored record.
pub fn start() -> (state: AuthState)
    ensures
        state == AuthState::Loading,
{
    AuthState::Loading
}

/// The state after `event` and the action that follows from it.
///
/// A stored record is probed; if the probe succeeds the flow ends with that
/// record, untouched. If it fails the record's refresh token is tried, and if
/// that fails too, or nothing was stored, the user is sent through the
/// browser. New tokens are stored before the flow ends with them. A redirect
/// that never comes, a failed exchange and failing storage end the flow
/// without a token.
pub open spec fn auth_step(state: AuthState, event: AuthEvent) -> (AuthState, AuthAction) {
    match (state, event) {
        (AuthState::Loading, AuthEvent::Loaded(Some(record))) => (
            AuthState::Probing(record),
            AuthAction::Probe { access_token: record.access_token },
        ),
        (AuthState::Loading, AuthEvent::Loaded(None)) => (
            AuthState::Authorizing,
            AuthAction::Authorize,
        ),
        (AuthState::Loading, AuthEvent::LoadFailed) => (
            AuthState::Failed(AuthFailure::Storage),
            AuthAction::Abort(AuthFailure::Storage),
        ),
        (AuthState::Probing(record), AuthEvent::ProbeSucceeded) => (
            AuthState::Ready(record),
            AuthAction::Finish,
        ),
        (AuthState::Probing(record), AuthEvent::ProbeFailed) => (
            AuthState::Refreshing,
            AuthAction::Refresh { refresh_token: record.refresh_token },
        ),
        (AuthState::Refreshing, AuthEvent::Refreshed(record)) => (
            AuthState::Storing(record),
            AuthAction::Store(record),
        ),
        (AuthState::Refreshing, AuthEvent::RefreshFailed) => (
            AuthState::Authorizing,
            AuthAction::Authorize,
        ),
        (AuthState::Authorizing, AuthEvent::CodeCaptured(code)) => (
            AuthState::Exchanging,
            AuthAction::Exchange { code },
        ),
        (AuthState::Authorizing, AuthEvent::CodeMissing) => (
            AuthState::Failed(AuthFailure::Authorization),
            AuthAction::Abort(AuthFailure::Authorization),
        ),
        (AuthState::Exchanging, AuthEvent::Exchanged(record)) => (
            AuthState::Storing(record),
            AuthAction::Store(record),
        ),
        (AuthState::Exchanging, AuthEvent::ExchangeFailed) => (
            AuthState::Failed(AuthFailure::Exchange),
            AuthAction::Abort(AuthFailure::Exchange),
        ),
        (AuthState::Storing(record), AuthEvent::Stored) => (
            AuthState::Ready(record),
            AuthAction::Finish,
        ),
        (AuthState::Storing(_), AuthEvent::StoreFailed) => (
            AuthState::Failed(AuthFailure::Storage),
            AuthAction::Abort(AuthFailure::Storage),
        ),
        (state, _) => (state, AuthAction::Wait),
    }
}

/// Takes the flow one step: the state after `event`, and what to do next.
pub fn advance(state: AuthState, event: AuthEvent) -> (step: (AuthState, AuthAction))
    ensures
        step == auth_step(state, event),
{
    match state {
        AuthState::Loading => match event {
            AuthEvent::Loaded(Some(record)) => {
                let access_token = record.access_token.clone();
                (AuthState::Probing(record), AuthAction::Probe { access_token })
            },
            AuthEvent::Loaded(None) => (AuthState::Authorizing, AuthAction::Authorize),
            AuthEvent::LoadFailed => (
                AuthState::Failed(AuthFailure::Storage),
                AuthAction::Abort(AuthFailure::Storage),
            ),
            _ => (AuthState::Loading, AuthAction::Wait),
        },
        AuthState::Probing(record) => match event {
            AuthEvent::ProbeSucceeded => (AuthState::Ready(record), AuthAction::Finish),
            AuthEvent::ProbeFailed => {
                let refresh_token = record.refresh_token.clone();
                (AuthState::Refreshing, AuthAction::Refresh { refresh_token })
            },
            _ => (AuthState::Probing(record), AuthAction::Wait),
        },
        AuthState::Refreshing => match event {
            AuthEvent::Refreshed(record) => {
                let copy = record.duplicate();
                (AuthState::Storing(record), AuthAction::Store(copy))
            },
            AuthEvent::RefreshFailed => (AuthState::Authorizing, AuthAction::Authorize),
            _ => (AuthState::Refreshing, AuthAction::Wait),
        },
        AuthState::Authorizing => match event {
            AuthEvent::CodeCaptured(code) => (AuthState::Exchanging, AuthAction::Exchange { code }),
            AuthEvent::CodeMissing => (
                AuthState::Failed(AuthFailure::Authorization),
                AuthAction::Abort(AuthFailure::Authorization),
            ),
            _ => (AuthState::Authorizing, AuthAction::Wait),
        },
        AuthState::Exchanging => match event {
            AuthEvent::Exchanged(record) => {
                let copy = record.duplicate();
                (AuthState::Storing(record), AuthAction::Store(copy))
            },
            AuthEvent::ExchangeFailed => (
                AuthState::Failed(AuthFailure::Exchange),
                AuthAction::Abort(AuthFailure::Exchange),
            ),
            _ => (AuthState::Exchanging, AuthAction::Wait),
        },
        AuthState::Storing(record) => match event {
            AuthEvent::Stored => (AuthState::Ready(record), AuthAction::Finish),
            AuthEvent::StoreFailed => (
                AuthState::Failed(AuthFailure::Storage),
                AuthAction::Abort(AuthFailure::Storage),
            ),
            _ => (AuthState::Storing(record), AuthAction::Wait),
        },
        AuthState::Ready(record) => (AuthState::Ready(record), AuthAction::Wait),
        AuthState::Failed(failure) => (AuthState::Failed(failure), AuthAction::Wait),
    }
}

/// The record that the flow ended with, once it has.
pub fn token(state: &AuthState) -> (record: Option<&TokenData>)
    ensures
        record == (match *state {
            AuthState::Ready(r) => Some(&r),
            _ => None,
        }),
{
    match state {
        AuthState::Ready(r) => Some(r),
        _ => None,
    }
}

/// The actions that follow, one by one, from `events` arriving in `state`.
pub open spec fn actions_from(state: AuthState, events: Seq<AuthEvent>) -> Seq<AuthAction>
    decreases events.len(),
{
    if events.len() == 0 {
        Seq::empty()
    } else {
        let (next, action) = auth_step(state, events.first());
        seq![action] + actions_from(next, events.drop_first())
    }
}

/// Once the flow has ended, nothing more is asked of the driver.
pub proof fn lemma_ended_flow_waits(state: AuthState, events: Seq<AuthEvent>)
    requires
        state is Ready || state is Failed,
    ensures
        forall|i: int|
            0 <= i < actions_from(state, events).len() ==> #[trigger] actions_from(
                state,
                events,
            )[i] == AuthAction::Wait,
        actions_from(state, events).len() == events.len(),
    decreases events.len(),
{
    if events.len() > 0 {
        lemma_ended_flow_waits(state, events.drop_first());
    }
}

/// If the stored record passes the probe, the flow ends with that record and
/// the user is never sent to the browser, whatever is reported afterwards.
pub proof fn lemma_valid_record_skips_browser(record: TokenData, later: Seq<AuthEvent>)
    ensures
        ({
            let events = seq![AuthEvent::Loaded(Some(record)), AuthEvent::ProbeSucceeded] + later;
            let actions = actions_from(AuthState::Loading, events);
            &&& actions.len() == events.len()
            &&& actions[0] == (AuthAction::Probe { access_token: record.access_token })
            &&& actions[1] == AuthAction::Finish
            &&& forall|i: int| 0 <= i < actions.len() ==> #[trigger] actions[i] != AuthAction::Authorize
        }),
        auth_step(
            auth_step(AuthState::Loading, AuthEvent::Loaded(Some(record))).0,
            AuthEvent::ProbeSucceeded,
        ).0 == AuthState::Ready(record),
{
    let events = seq![AuthEvent::Loaded(Some(record)), AuthEvent::ProbeSucceeded] + later;
    let after_load = events.drop_first();
    let after_probe = after_load.drop_first();
    assert(after_probe =~= later);
    assert(events.first() == AuthEvent::Loaded(Some(record)));
    assert(after_load.first() == AuthEvent::ProbeSucceeded);
    lemma_ended_flow_waits(AuthState::Ready(record), later);
    let tail = actions_from(AuthState::Ready(record), later);
    let actions = actions_from(AuthState::Loading, events);
    assert(actions_from(AuthState::Probing(record), after_load) == seq![AuthAction::Finish] + tail);
    assert(actions == seq![AuthAction::Probe { access_token: record.access_token }] + (
    seq![AuthAction::Finish] + tail));
    assert forall|i: int| 0 <= i < actions.len() implies #[trigger] actions[i]
        != AuthAction::Authorize by {
        if i >= 2 {
            assert(actions[i] == tail[i - 2]);
        }
    }
}

/// The address that the bank redirects the browser to.
pub fn redirect_uri() -> (uri: &'static str)
    ensures
        uri@ == "http://localhost:8321"@,
{
    "http://localhost:8321"
}

/// The address at which the user grants access: the bank's authorize page
/// with the client, the anti-forgery `state`, the redirect address and the
/// user's bank as its query.
pub fn authorize_url(config: &AppConfig, state: &str) -> (url: String)
    ensures
        url@ == "https://api.sparebank1.no/oauth/authorize?client_id="@ + config.client_id@
            + "&state="@ + state@ + "&redirect_uri="@ + "http://localhost:8321"@ + "&finInst="@
            + config.financial_institution@ + "&response_type=code"@,
{
    let mut url = String::from_str("https://api.sparebank1.no/oauth/authorize?client_id=");
    url.append(config.client_id.as_str());
    url.append("&state=");
    url.append(state);
    url.append("&redirect_uri=");
    url.append(redirect_uri());
    url.append("&finInst=");
    url.append(config.financial_institution.as_str());
    url.append("&response_type=code");
    url
}

/// The kind of grant that a request to the token endpoint asks for.
#[derive(Clone, Copy, Debug, PartialEq, Eq)]
pub enum Grant {
    AuthorizationCode,
    RefreshToken,
}

/// The form that is posted to the token endpoint. Fields that are `None` are
/// not sent.
#[derive(Clone, Debug, PartialEq, Eq)]
pub struct TokenForm {
    pub grant: Grant,
    pub client_id: String,
    pub client_secret: String,
    pub code: Option<String>,
    pub state: Option<String>,
    pub redirect_uri: Option<String>,
    pub refresh_token: Option<String>,
}

/// The address of the token endpoint.
pub fn token_url() -> (url: &'static str)
    ensures
        url@ == "https://api.sparebank1.no/oauth/token"@,
{
    "https://api.sparebank1.no/oauth/token"
}

/// The name under which a grant goes into the form.
pub fn grant_type(grant: Grant) -> (name: &'static str)
    ensures
        name@ == (match grant {
            Grant::AuthorizationCode => "authorization_code"@,
            Grant::RefreshToken => "refresh_token"@,
        }),
{
    match grant {
        Grant::AuthorizationCode => "authorization_code",
        Grant::RefreshToken => "refresh_token",
    }
}

/// The form that exchanges an authorization code for tokens: the client's
/// credentials, the code, and the state and redirect address that the
/// authorize URL carried.
pub fn exchange_form(config: &AppConfig, code: &str, state: &str) -> (form: TokenForm)
    ensures
        form.grant == Grant::AuthorizationCode,
        form.client_id == config.client_id,
        form.client_secret == config.client_secret,
        form.code matches Some(c) && c@ == code@,
        form.state matches Some(s) && s@ == state@,
        form.redirect_uri matches Some(r) && r@ == "http://localhost:8321"@,
        form.refresh_token is None,
{
    TokenForm {
        grant: Grant::AuthorizationCode,
        client_id: config.client_id.clone(),
        client_secret: config.client_secret.clone(),
        code: Some(code.to_owned()),
        state: Some(state.to_owned()),
        redirect_uri: Some(redirect_uri().to_owned()),
        refresh_token: None,
    }
}

/// The form that asks for new tokens with a refresh token: the client's
/// credentials and the token, nothing else.
pub fn refresh_form(config: &AppConfig, refresh_token: &str) -> (form: TokenForm)
    ensures
        form.grant == Grant::RefreshToken,
        form.client_id == config.client_id,
        form.client_secret == config.client_secret,
        form.code is None,
        form.state is None,
        form.redirect_uri is None,
        form.refresh_token matches Some(t) && t@ == refresh_token@,
{
    TokenForm {
        grant: Grant::RefreshToken,
        client_id: config.client_id.clone(),
        client_secret: config.client_secret.clone(),
        code: None,
        state: None,
        redirect_uri: None,
        refresh_token: Some(refresh_token.to_owned()),
    }
}

} // verus!
