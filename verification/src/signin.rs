//! Signing in with a Microsoft account: the order of the requests, and what is
//! told to the player.

use vstd::prelude::*;
use vstd::string::*;

use crate::address;
use crate::auth;
use crate::auth::{
    identity_token, parse_auth_code_and_state, parse_loopback_port_from_redirect_uri,
    resolve_microsoft_redirect_uri, CallbackError, CALLBACK_TIMEOUT,
};
use crate::messages::{AppEvent, EventView};
use crate::text;
use crate::text::{concat2, same_text};

verus! {

/// A player who is signed in.
#[derive(Debug, Clone, PartialEq, Eq)]
pub struct SignedIn {
    /// The player's name.
    pub username: String,
    /// The player's identifier.
    pub uuid: String,
    /// The game session's access token.
    pub access_token: String,
    /// The token that renews the session.
    pub refresh_token: String,
}

/// A player who is signed in, as plain values.
pub struct SignedInView {
    pub username: Seq<char>,
    pub uuid: Seq<char>,
    pub access_token: Seq<char>,
    pub refresh_token: Seq<char>,
}

impl View for SignedIn {
    type V = SignedInView;

    open spec fn view(&self) -> SignedInView {
        SignedInView {
            username: self.username@,
            uuid: self.uuid@,
            access_token: self.access_token@,
            refresh_token: self.refresh_token@,
        }
    }
}

/// What an exchange of tokens starts from.
#[derive(Debug, Clone, Copy, PartialEq, Eq, Structural)]
pub enum ExchangeKind {
    /// An authorization code.
    Code,
    /// A refresh token.
    Refresh,
}

/// What an exchange asks for.
#[derive(Debug, Clone, PartialEq, Eq)]
pub enum ExchangeAction {
    /// Exchange the authorization code or the refresh token for a token.
    RequestToken,
    /// Sign in to Xbox Live with this token.
    Xbl(String),
    /// Sign in to the security token service with this token.
    Xsts(String),
    /// Sign in to the game's services with this identity.
    Login(String),
    /// Look up the player with this access token.
    Profile(String),
}

/// What an exchange asks for, as plain values.
pub enum ExchangeActionView {
    RequestToken,
    Xbl(Seq<char>),
    Xsts(Seq<char>),
    Login(Seq<char>),
    Profile(Seq<char>),
}

impl View for ExchangeAction {
    type V = ExchangeActionView;

    open spec fn view(&self) -> ExchangeActionView {
        match *self {
            ExchangeAction::RequestToken => ExchangeActionView::RequestToken,
            ExchangeAction::Xbl(token) => ExchangeActionView::Xbl(token@),
            ExchangeAction::Xsts(token) => ExchangeActionView::Xsts(token@),
            ExchangeAction::Login(identity) => ExchangeActionView::Login(identity@),
            ExchangeAction::Profile(token) => ExchangeActionView::Profile(token@),
        }
    }
}

/// What is asked for, as plain values.
pub open spec fn asked(action: Option<ExchangeAction>) -> Option<ExchangeActionView> {
    match action {
        Some(action) => Some(action@),
        None => None,
    }
}

/// How a request went.
#[derive(Debug)]
pub enum ExchangeReply {
    /// Tokens, or the error that came with them.
    Token {
        /// The access token.
        access_token: String,
        /// The refresh token.
        refresh_token: String,
        /// The error.
        error: Option<String>,
    },
    /// An Xbox Live token, with the hashes of the users that it is for.
    Xbl {
        /// The token.
        token: String,
        /// The hashes.
        userhashes: Vec<String>,
    },
    /// A token of the security token service.
    Xsts(String),
    /// The access token of the game session.
    Login(String),
    /// The player.
    Profile {
        /// The player's identifier.
        id: String,
        /// The player's name.
        name: String,
    },
    /// The request failed.
    Failed(String),
}

/// What an exchange waits for.
#[derive(Debug, Clone, Copy, PartialEq, Eq, Structural)]
pub enum ExchangeStage {
    /// Tokens.
    Token,
    /// An Xbox Live token.
    Xbl,
    /// A token of the security token service.
    Xsts,
    /// The access token of the game session.
    Login,
    /// The player.
    Profile,
    /// Nothing: the exchange is over.
    Over,
}

/// The state of an exchange as plain values.
pub struct ExchangeView {
    pub kind: ExchangeKind,
    pub stage: ExchangeStage,
    pub refresh_token: Seq<char>,
    pub userhash: Seq<char>,
    pub access_token: Seq<char>,
    pub outcome: Option<Result<SignedInView, Seq<char>>>,
}

/// An exchange that ends with a failure.
pub open spec fn exchange_failing(v: ExchangeView, error: Seq<char>) -> (
    ExchangeView,
    Option<ExchangeActionView>,
) {
    (ExchangeView { stage: ExchangeStage::Over, outcome: Some(Err(error)), ..v }, None)
}

/// What is said before the error that came with tokens.
pub open spec fn token_error_text(kind: ExchangeKind) -> Seq<char> {
    match kind {
        ExchangeKind::Code => "authorization token exchange returned error: "@,
        ExchangeKind::Refresh => "authorization token refresh returned error: "@,
    }
}

/// What a reply leads to. A reply that the exchange does not wait for changes
/// nothing, and a failure ends it.
pub open spec fn exchange_step(v: ExchangeView, reply: ExchangeReply) -> (
    ExchangeView,
    Option<ExchangeActionView>,
) {
    match (v.stage, reply) {
        (ExchangeStage::Over, _) => (v, None),
        (_, ExchangeReply::Failed(error)) => exchange_failing(v, error@),
        (ExchangeStage::Token, ExchangeReply::Token { access_token, refresh_token, error }) =>
            match error {
            Some(error) => exchange_failing(v, token_error_text(v.kind) + error@),
            None => (
                ExchangeView {
                    stage: ExchangeStage::Xbl,
                    refresh_token: refresh_token@,
                    ..v
                },
                Some(ExchangeActionView::Xbl(access_token@)),
            ),
        },
        (ExchangeStage::Xbl, ExchangeReply::Xbl { token, userhashes }) => if userhashes@.len()
            == 0 {
            exchange_failing(v, "xbl response missing user hash"@)
        } else {
            (
                ExchangeView { stage: ExchangeStage::Xsts, userhash: userhashes@[0]@, ..v },
                Some(ExchangeActionView::Xsts(token@)),
            )
        },
        (ExchangeStage::Xsts, ExchangeReply::Xsts(token)) => (
            ExchangeView { stage: ExchangeStage::Login, ..v },
            Some(ExchangeActionView::Login("XBL3.0 x="@ + v.userhash + ";"@ + token@)),
        ),
        (ExchangeStage::Login, ExchangeReply::Login(token)) => (
            ExchangeView { stage: ExchangeStage::Profile, access_token: token@, ..v },
            Some(ExchangeActionView::Profile(token@)),
        ),
        (ExchangeStage::Profile, ExchangeReply::Profile { id, name }) => (
            ExchangeView {
                stage: ExchangeStage::Over,
                outcome: Some(
                    Ok(
                        SignedInView {
                            username: name@,
                            uuid: id@,
                            access_token: v.access_token,
                            refresh_token: v.refresh_token,
                        },
                    ),
                ),
                ..v
            },
            None,
        ),
        _ => (v, None),
    }
}

/// How an exchange begins.
pub open spec fn exchange_start(kind: ExchangeKind) -> (ExchangeView, Option<ExchangeActionView>) {
    (
        ExchangeView {
            kind,
            stage: ExchangeStage::Token,
            refresh_token: seq![],
            userhash: seq![],
            access_token: seq![],
            outcome: None,
        },
        Some(ExchangeActionView::RequestToken),
    )
}

/// An exchange of an authorization code or a refresh token for a game session.
#[derive(Debug)]
pub struct ExchangeRun {
    kind: ExchangeKind,
    stage: ExchangeStage,
    refresh_token: String,
    userhash: String,
    access_token: String,
    signed_in: Option<SignedIn>,
    error: Option<String>,
}

impl View for ExchangeRun {
    type V = ExchangeView;

    closed spec fn view(&self) -> ExchangeView {
        ExchangeView {
            kind: self.kind,
            stage: self.stage,
            refresh_token: self.refresh_token@,
            userhash: self.userhash@,
            access_token: self.access_token@,
            outcome: match (self.error, self.signed_in) {
                (Some(error), _) => Some(Err(error@)),
                (None, Some(player)) => Some(Ok(player@)),
                (None, None) => None,
            },
        }
    }
}

impl ExchangeRun {
    /// Whether the state is one that an exchange can have.
    pub closed spec fn wf(&self) -> bool {
        self.stage != ExchangeStage::Over ==> self.error is None && self.signed_in is None
    }

    /// Begins an exchange.
    pub fn start(kind: ExchangeKind) -> (r: (ExchangeRun, ExchangeAction))
        ensures
            (r.0@, Some(r.1@)) == exchange_start(kind),
            r.0.wf(),
    {
        let run = ExchangeRun {
            kind,
            stage: ExchangeStage::Token,
            refresh_token: String::new(),
            userhash: String::new(),
            access_token: String::new(),
            signed_in: None,
            error: None,
        };
        assert(run.refresh_token@ =~= seq![]);
        assert(run.userhash@ =~= seq![]);
        assert(run.access_token@ =~= seq![]);
        (run, ExchangeAction::RequestToken)
    }

    /// Takes in how a request went, and says what to ask for next.
    pub fn step(&mut self, reply: ExchangeReply) -> (r: Option<ExchangeAction>)
        requires
            old(self).wf(),
        ensures
            (final(self)@, asked(r)) == exchange_step(old(self)@, reply),
            final(self).wf(),
    {
        match (self.stage, reply) {
            (ExchangeStage::Over, _) => None,
            (_, ExchangeReply::Failed(error)) => {
                self.stage = ExchangeStage::Over;
                self.error = Some(error);
                None
            },
            (ExchangeStage::Token, ExchangeReply::Token { access_token, refresh_token, error }) => {
                if let Some(error) = error {
                    let message = match self.kind {
                        ExchangeKind::Code => concat2(
                            "authorization token exchange returned error: ",
                            error.as_str(),
                        ),
                        ExchangeKind::Refresh => concat2(
                            "authorization token refresh returned error: ",
                            error.as_str(),
                        ),
                    };
                    self.stage = ExchangeStage::Over;
                    self.error = Some(message);
                    return None;
                }
                self.stage = ExchangeStage::Xbl;
                self.refresh_token = refresh_token;
                Some(ExchangeAction::Xbl(access_token))
            },
            (ExchangeStage::Xbl, ExchangeReply::Xbl { token, userhashes }) => {
                if userhashes.len() == 0 {
                    self.stage = ExchangeStage::Over;
                    self.error = Some("xbl response missing user hash".to_owned());
                    return None;
                }
                self.stage = ExchangeStage::Xsts;
                self.userhash = userhashes[0].clone();
                Some(ExchangeAction::Xsts(token))
            },
            (ExchangeStage::Xsts, ExchangeReply::Xsts(token)) => {
                self.stage = ExchangeStage::Login;
                let identity = identity_token(self.userhash.as_str(), token.as_str());
                Some(ExchangeAction::Login(identity))
            },
            (ExchangeStage::Login, ExchangeReply::Login(token)) => {
                self.stage = ExchangeStage::Profile;
                self.access_token = token.clone();
                Some(ExchangeAction::Profile(token))
            },
            (ExchangeStage::Profile, ExchangeReply::Profile { id, name }) => {
                self.stage = ExchangeStage::Over;
                self.signed_in = Some(
                    SignedIn {
                        username: name,
                        uuid: id,
                        access_token: self.access_token.clone(),
                        refresh_token: self.refresh_token.clone(),
                    },
                );
                None
            },
            _ => None,
        }
    }

    /// The player, once the exchange is over, or why it failed.
    pub fn outcome(self) -> (r: Option<Result<SignedIn, String>>)
        ensures
            match self@.outcome {
                Some(Ok(player)) => r matches Some(Ok(p)) && p@ == player,
                Some(Err(error)) => r matches Some(Err(e)) && e@ == error,
                None => r is None,
            },
    {
        match (self.error, self.signed_in) {
            (Some(error), _) => Some(Err(error)),
            (None, Some(player)) => Some(Ok(player)),
            (None, None) => None,
        }
    }
}

/// What signing in asks for.
#[derive(Debug)]
pub enum LoginAction {
    /// Hand the event to the user interface.
    Send(AppEvent),
    /// Report that the callback is no address.
    ReportMalformedCallback(url::ParseError),
    /// Listen on this port of the loopback address.
    Listen(u16),
    /// Make the address, the state and the verifier of a login.
    MakeLogin {
        /// The redirect address.
        redirect_uri: String,
    },
    /// Wait for the callback, for so many nanoseconds at most.
    AwaitCallback(u128),
    /// Exchange an authorization code for a game session.
    ExchangeCode {
        /// The redirect address.
        redirect_uri: String,
        /// The code.
        code: String,
        /// The verifier of the login.
        verifier: String,
    },
    /// Exchange the stored refresh token for a game session.
    ExchangeRefreshToken,
    /// Store the refresh token.
    SaveToken(String),
    /// Forget the stored refresh token.
    ClearToken,
}

/// What signing in asks for, as plain values.
pub enum LoginActionView {
    Send(EventView),
    ReportMalformedCallback,
    Listen(u16),
    MakeLogin { redirect_uri: Seq<char> },
    AwaitCallback(u128),
    ExchangeCode { redirect_uri: Seq<char>, code: Seq<char>, verifier: Seq<char> },
    ExchangeRefreshToken,
    SaveToken(Seq<char>),
    ClearToken,
}

impl View for LoginAction {
    type V = LoginActionView;

    open spec fn view(&self) -> LoginActionView {
        match *self {
            LoginAction::Send(event) => LoginActionView::Send(event@),
            LoginAction::ReportMalformedCallback(_) => LoginActionView::ReportMalformedCallback,
            LoginAction::Listen(port) => LoginActionView::Listen(port),
            LoginAction::MakeLogin { redirect_uri } => LoginActionView::MakeLogin {
                redirect_uri: redirect_uri@,
            },
            LoginAction::AwaitCallback(timeout) => LoginActionView::AwaitCallback(timeout),
            LoginAction::ExchangeCode { redirect_uri, code, verifier } =>
                LoginActionView::ExchangeCode {
                redirect_uri: redirect_uri@,
                code: code@,
                verifier: verifier@,
            },
            LoginAction::ExchangeRefreshToken => LoginActionView::ExchangeRefreshToken,
            LoginAction::SaveToken(token) => LoginActionView::SaveToken(token@),
            LoginAction::ClearToken => LoginActionView::ClearToken,
        }
    }
}

/// Actions as plain values.
pub open spec fn login_action_views(actions: Seq<LoginAction>) -> Seq<LoginActionView> {
    actions.map_values(|action: LoginAction| action@)
}

fn emit(actions: &mut Vec<LoginAction>, action: LoginAction)
    ensures
        login_action_views(final(actions)@) == login_action_views(old(actions)@).push(action@),
{
    let ghost before = actions@;
    let ghost added = action;
    actions.push(action);
    assert(login_action_views(actions@) =~= login_action_views(before).push(added@));
}

/// How an action went.
#[derive(Debug)]
pub enum LoginReply {
    /// It is done.
    Done,
    /// The address, the state and the verifier of a login.
    Login {
        /// The address that the player opens.
        url: String,
        /// The state that the callback has to repeat.
        state: String,
        /// The verifier that goes with the code.
        verifier: String,
    },
    /// The address of the callback.
    Callback(String),
    /// The player is signed in.
    SignedIn(SignedIn),
    /// The action failed.
    Failed(String),
}

/// What signing in waits for.
#[derive(Debug, Clone, Copy, PartialEq, Eq, Structural)]
pub enum LoginStage {
    /// The listener.
    Listening,
    /// The data of the login.
    Preparing,
    /// The callback.
    Awaiting,
    /// The game session.
    Exchanging,
    /// The end of storing the token.
    Saving,
    /// Nothing: signing in is over.
    Over,
}

/// The state of signing in as plain values.
pub struct LoginView {
    pub stage: LoginStage,
    pub redirect_uri: Seq<char>,
    pub state: Seq<char>,
    pub verifier: Seq<char>,
    pub player: Option<SignedInView>,
}

/// Signing in that ends with a failure.
pub open spec fn login_failing(v: LoginView, error: Seq<char>) -> (LoginView, Seq<LoginActionView>) {
    (
        LoginView { stage: LoginStage::Over, ..v },
        seq![LoginActionView::Send(EventView::SignInFailed(error))],
    )
}

/// The event that tells of a player who is signed in.
pub open spec fn signed_in_event(player: SignedInView) -> EventView {
    EventView::SignedIn {
        username: player.username,
        uuid: player.uuid,
        access_token: player.access_token,
        refresh_token: player.refresh_token,
    }
}

/// What follows the callback: the code is exchanged only if the callback repeats
/// the state of the login.
pub open spec fn after_callback(v: LoginView, callback: Seq<char>) -> (
    LoginView,
    Seq<LoginActionView>,
) {
    match address::parsed_url(callback) {
        None => (
            LoginView { stage: LoginStage::Over, ..v },
            seq![LoginActionView::ReportMalformedCallback],
        ),
        Some((_, pairs)) => match auth::callback_values(pairs) {
            None => login_failing(
                v,
                "Failed parsing OAuth callback: oauth callback did not contain an authorization code"@,
            ),
            Some((code, state)) => if state == Some(v.state) {
                (
                    LoginView { stage: LoginStage::Exchanging, ..v },
                    seq![
                        LoginActionView::ExchangeCode {
                            redirect_uri: v.redirect_uri,
                            code,
                            verifier: v.verifier,
                        },
                    ],
                )
            } else {
                login_failing(v, "OAuth callback state mismatch; aborting login for safety"@)
            },
        },
    }
}

/// What a reply leads to. A reply that is not waited for changes nothing.
pub open spec fn login_step(v: LoginView, reply: LoginReply) -> (LoginView, Seq<LoginActionView>) {
    match (v.stage, reply) {
        (LoginStage::Listening, LoginReply::Done) => (
            LoginView { stage: LoginStage::Preparing, ..v },
            seq![LoginActionView::MakeLogin { redirect_uri: v.redirect_uri }],
        ),
        (LoginStage::Listening, LoginReply::Failed(error)) => login_failing(
            v,
            "Failed to open local callback port: "@ + error@,
        ),
        (LoginStage::Preparing, LoginReply::Login { url, state, verifier }) => (
            LoginView { stage: LoginStage::Awaiting, state: state@, verifier: verifier@, ..v },
            seq![
                LoginActionView::Send(
                    EventView::Log(
                        "Open browser for Microsoft login. Redirect URI: "@ + v.redirect_uri,
                    ),
                ),
                LoginActionView::Send(EventView::OpenUrl(url@)),
                LoginActionView::Send(
                    EventView::StatusUpdate("Waiting for Microsoft login in browser..."@),
                ),
                LoginActionView::AwaitCallback(auth::CALLBACK_TIMEOUT),
            ],
        ),
        (LoginStage::Awaiting, LoginReply::Callback(callback)) => after_callback(v, callback@),
        (LoginStage::Awaiting, LoginReply::Failed(error)) => login_failing(v, error@),
        (LoginStage::Exchanging, LoginReply::SignedIn(player)) => (
            LoginView { stage: LoginStage::Saving, player: Some(player@), ..v },
            seq![LoginActionView::SaveToken(player.refresh_token@)],
        ),
        (LoginStage::Exchanging, LoginReply::Failed(error)) => login_failing(
            v,
            "Microsoft login failed: "@ + error@,
        ),
        (LoginStage::Saving, LoginReply::Done) => match v.player {
            Some(player) => (
                LoginView { stage: LoginStage::Over, ..v },
                seq![LoginActionView::Send(signed_in_event(player))],
            ),
            None => (v, seq![]),
        },
        (LoginStage::Saving, LoginReply::Failed(error)) => match v.player {
            Some(player) => (
                LoginView { stage: LoginStage::Over, ..v },
                seq![
                    LoginActionView::Send(
                        EventView::Log(
                            "[WARN] Signed in, but failed to store refresh token in keyring: "@
                                + error@,
                        ),
                    ),
                    LoginActionView::Send(signed_in_event(player)),
                ],
            ),
            None => (v, seq![]),
        },
        _ => (v, seq![]),
    }
}

/// How signing in begins.
pub open spec fn login_start(setting: Option<Seq<char>>) -> (LoginView, Seq<LoginActionView>) {
    let v = LoginView {
        stage: LoginStage::Over,
        redirect_uri: seq![],
        state: seq![],
        verifier: seq![],
        player: None,
    };
    let started = LoginActionView::Send(EventView::StatusUpdate("Starting Microsoft sign-in..."@));
    match auth::redirect_uri(setting) {
        None => (
            v,
            seq![started, LoginActionView::Send(EventView::SignInFailed(auth::redirect_refusal()))],
        ),
        Some(uri) => match auth::loopback_port(uri) {
            Some(port) => (
                LoginView { stage: LoginStage::Listening, redirect_uri: uri, ..v },
                seq![started, LoginActionView::Listen(port as u16)],
            ),
            None => (
                v,
                seq![
                    started,
                    LoginActionView::Send(
                        EventView::SignInFailed("Invalid redirect URI format: "@ + uri),
                    ),
                ],
            ),
        },
    }
}

/// Signing in with the browser.
#[derive(Debug)]
pub struct LoginRun {
    stage: LoginStage,
    redirect_uri: String,
    state: String,
    verifier: String,
    player: Option<SignedIn>,
}

impl View for LoginRun {
    type V = LoginView;

    closed spec fn view(&self) -> LoginView {
        LoginView {
            stage: self.stage,
            redirect_uri: self.redirect_uri@,
            state: self.state@,
            verifier: self.verifier@,
            player: match self.player {
                Some(player) => Some(player@),
                None => None,
            },
        }
    }
}

fn success_event(player: &SignedIn) -> (r: AppEvent)
    ensures
        r@ == signed_in_event(player@),
{
    AppEvent::auth_success(
        player.username.clone(),
        player.uuid.clone(),
        player.access_token.clone(),
        player.refresh_token.clone(),
    )
}

impl LoginRun {
    /// Begins signing in, given the setting of the redirect address.
    pub fn start(setting: Option<&str>) -> (r: (LoginRun, Vec<LoginAction>))
        ensures
            (r.0@, login_action_views(r.1@)) == login_start(text::opt_str(setting)),
    {
        let mut actions: Vec<LoginAction> = Vec::new();
        assert(login_action_views(actions@) =~= seq![]);
        emit(
            &mut actions,
            LoginAction::Send(AppEvent::StatusUpdate("Starting Microsoft sign-in...".to_owned())),
        );
        let mut run = LoginRun {
            stage: LoginStage::Over,
            redirect_uri: String::new(),
            state: String::new(),
            verifier: String::new(),
            player: None,
        };
        assert(run.redirect_uri@ =~= seq![]);
        assert(run.state@ =~= seq![]);
        assert(run.verifier@ =~= seq![]);
        match resolve_microsoft_redirect_uri(setting) {
            Err(error) => {
                emit(&mut actions, LoginAction::Send(AppEvent::auth_failed(error)));
            },
            Ok(uri) => match parse_loopback_port_from_redirect_uri(uri.as_str()) {
                Some(port) => {
                    run.stage = LoginStage::Listening;
                    run.redirect_uri = uri;
                    emit(&mut actions, LoginAction::Listen(port));
                },
                None => {
                    let message = concat2("Invalid redirect URI format: ", uri.as_str());
                    emit(&mut actions, LoginAction::Send(AppEvent::auth_failed(message)));
                },
            },
        }
        (run, actions)
    }

    fn fail(&mut self, error: String, actions: &mut Vec<LoginAction>)
        requires
            login_action_views(old(actions)@) == Seq::<LoginActionView>::empty(),
        ensures
            (final(self)@, login_action_views(final(actions)@)) == login_failing(
                old(self)@,
                error@,
            ),
    {
        self.stage = LoginStage::Over;
        emit(actions, LoginAction::Send(AppEvent::auth_failed(error)));
    }

    fn called_back(&mut self, callback: &str, actions: &mut Vec<LoginAction>)
        requires
            callback@.len() <= address::MAX_TEXT,
            login_action_views(old(actions)@) == Seq::<LoginActionView>::empty(),
        ensures
            (final(self)@, login_action_views(final(actions)@)) == after_callback(
                old(self)@,
                callback@,
            ),
    {
        match parse_auth_code_and_state(callback) {
            Err(CallbackError::Malformed(error)) => {
                self.stage = LoginStage::Over;
                emit(actions, LoginAction::ReportMalformedCallback(error));
            },
            Err(CallbackError::NoCode) => {
                self.fail(
                    "Failed parsing OAuth callback: oauth callback did not contain an authorization code".to_owned(),
                    actions,
                );
            },
            Ok((code, state)) => {
                let repeated = match &state {
                    Some(state) => same_text(state.as_str(), self.state.as_str()),
                    None => false,
                };
                if repeated {
                    self.stage = LoginStage::Exchanging;
                    emit(
                        actions,
                        LoginAction::ExchangeCode {
                            redirect_uri: self.redirect_uri.clone(),
                            code,
                            verifier: self.verifier.clone(),
                        },
                    );
                } else {
                    self.fail(
                        "OAuth callback state mismatch; aborting login for safety".to_owned(),
                        actions,
                    );
                }
            },
        }
    }

    /// Takes in how an action went, and says what to do next.
    pub fn step(&mut self, reply: LoginReply) -> (r: Vec<LoginAction>)
        requires
            reply matches LoginReply::Callback(callback) ==> callback@.len() <= address::MAX_TEXT,
        ensures
            (final(self)@, login_action_views(r@)) == login_step(old(self)@, reply),
    {
        let mut actions: Vec<LoginAction> = Vec::new();
        assert(login_action_views(actions@) =~= seq![]);
        match (self.stage, reply) {
            (LoginStage::Listening, LoginReply::Done) => {
                self.stage = LoginStage::Preparing;
                emit(
                    &mut actions,
                    LoginAction::MakeLogin { redirect_uri: self.redirect_uri.clone() },
                );
            },
            (LoginStage::Listening, LoginReply::Failed(error)) => {
                let message = concat2("Failed to open local callback port: ", error.as_str());
                self.fail(message, &mut actions);
            },
            (LoginStage::Preparing, LoginReply::Login { url, state, verifier }) => {
                self.stage = LoginStage::Awaiting;
                self.state = state;
                self.verifier = verifier;
                let line = concat2(
                    "Open browser for Microsoft login. Redirect URI: ",
                    self.redirect_uri.as_str(),
                );
                emit(&mut actions, LoginAction::Send(AppEvent::Log(line)));
                emit(&mut actions, LoginAction::Send(AppEvent::OpenUrl(url)));
                emit(
                    &mut actions,
                    LoginAction::Send(
                        AppEvent::StatusUpdate(
                            "Waiting for Microsoft login in browser...".to_owned(),
                        ),
                    ),
                );
                emit(&mut actions, LoginAction::AwaitCallback(CALLBACK_TIMEOUT));
            },
            (LoginStage::Awaiting, LoginReply::Callback(callback)) => {
                self.called_back(callback.as_str(), &mut actions);
            },
            (LoginStage::Awaiting, LoginReply::Failed(error)) => {
                self.fail(error, &mut actions);
            },
            (LoginStage::Exchanging, LoginReply::SignedIn(player)) => {
                self.stage = LoginStage::Saving;
                emit(&mut actions, LoginAction::SaveToken(player.refresh_token.clone()));
                self.player = Some(player);
            },
            (LoginStage::Exchanging, LoginReply::Failed(error)) => {
                let message = concat2("Microsoft login failed: ", error.as_str());
                self.fail(message, &mut actions);
            },
            (LoginStage::Saving, LoginReply::Done) => {
                if let Some(player) = &self.player {
                    let event = success_event(player);
                    self.stage = LoginStage::Over;
                    emit(&mut actions, LoginAction::Send(event));
                }
            },
            (LoginStage::Saving, LoginReply::Failed(error)) => {
                if let Some(player) = &self.player {
                    let event = success_event(player);
                    let line = concat2(
                        "[WARN] Signed in, but failed to store refresh token in keyring: ",
                        error.as_str(),
                    );
                    self.stage = LoginStage::Over;
                    emit(&mut actions, LoginAction::Send(AppEvent::Log(line)));
                    emit(&mut actions, LoginAction::Send(event));
                }
            },
            _ => {},
        }
        actions
    }
}

/// What restoring a session waits for.
#[derive(Debug, Clone, Copy, PartialEq, Eq, Structural)]
pub enum RestoreStage {
    /// The game session.
    Exchanging,
    /// The end of storing the token.
    Saving,
    /// Nothing: restoring is over.
    Over,
}

/// The state of restoring a session as plain values.
pub struct RestoreView {
    pub stage: RestoreStage,
    pub player: Option<SignedInView>,
}

/// What a reply leads to. A reply that is not waited for changes nothing. A
/// session that cannot be restored is forgotten.
pub open spec fn restore_step(v: RestoreView, reply: LoginReply) -> (
    RestoreView,
    Seq<LoginActionView>,
) {
    match (v.stage, reply) {
        (RestoreStage::Exchanging, LoginReply::SignedIn(player)) => (
            RestoreView { stage: RestoreStage::Saving, player: Some(player@) },
            seq![LoginActionView::SaveToken(player.refresh_token@)],
        ),
        (RestoreStage::Exchanging, LoginReply::Failed(error)) => (
            RestoreView { stage: RestoreStage::Over, ..v },
            seq![
                LoginActionView::ClearToken,
                LoginActionView::Send(
                    EventView::Log(
                        "Stored Microsoft session is invalid; please sign in again."@,
                    ),
                ),
                LoginActionView::Send(
                    EventView::SignInFailed("Microsoft session restore failed: "@ + error@),
                ),
            ],
        ),
        (RestoreStage::Saving, LoginReply::Done) => match v.player {
            Some(player) => (
                RestoreView { stage: RestoreStage::Over, ..v },
                seq![LoginActionView::Send(signed_in_event(player))],
            ),
            None => (v, seq![]),
        },
        (RestoreStage::Saving, LoginReply::Failed(error)) => match v.player {
            Some(player) => (
                RestoreView { stage: RestoreStage::Over, ..v },
                seq![
                    LoginActionView::Send(
                        EventView::Log(
                            "[WARN] Failed to rotate stored refresh token: "@ + error@,
                        ),
                    ),
                    LoginActionView::Send(signed_in_event(player)),
                ],
            ),
            None => (v, seq![]),
        },
        _ => (v, seq![]),
    }
}

/// How restoring a session begins.
pub open spec fn restore_start() -> (RestoreView, Seq<LoginActionView>) {
    (
        RestoreView { stage: RestoreStage::Exchanging, player: None },
        seq![
            LoginActionView::Send(EventView::StatusUpdate("Restoring Microsoft session..."@)),
            LoginActionView::ExchangeRefreshToken,
        ],
    )
}

/// Restoring a session with a stored refresh token.
#[derive(Debug)]
pub struct RestoreRun {
    stage: RestoreStage,
    player: Option<SignedIn>,
}

impl View for RestoreRun {
    type V = RestoreView;

    closed spec fn view(&self) -> RestoreView {
        RestoreView {
            stage: self.stage,
            player: match self.player {
                Some(player) => Some(player@),
                None => None,
            },
        }
    }
}

impl RestoreRun {
    /// Begins restoring a session.
    pub fn start() -> (r: (RestoreRun, Vec<LoginAction>))
        ensures
            (r.0@, login_action_views(r.1@)) == restore_start(),
    {
        let mut actions: Vec<LoginAction> = Vec::new();
        assert(login_action_views(actions@) =~= seq![]);
        emit(
            &mut actions,
            LoginAction::Send(AppEvent::StatusUpdate("Restoring Microsoft session...".to_owned())),
        );
        emit(&mut actions, LoginAction::ExchangeRefreshToken);
        (RestoreRun { stage: RestoreStage::Exchanging, player: None }, actions)
    }

    /// Takes in how an action went, and says what to do next.
    pub fn step(&mut self, reply: LoginReply) -> (r: Vec<LoginAction>)
        ensures
            (final(self)@, login_action_views(r@)) == restore_step(old(self)@, reply),
    {
        let mut actions: Vec<LoginAction> = Vec::new();
        assert(login_action_views(actions@) =~= seq![]);
        match (self.stage, reply) {
            (RestoreStage::Exchanging, LoginReply::SignedIn(player)) => {
                self.stage = RestoreStage::Saving;
                emit(&mut actions, LoginAction::SaveToken(player.refresh_token.clone()));
                self.player = Some(player);
            },
            (RestoreStage::Exchanging, LoginReply::Failed(error)) => {
                self.stage = RestoreStage::Over;
                let message = concat2("Microsoft session restore failed: ", error.as_str());
                emit(&mut actions, LoginAction::ClearToken);
                emit(
                    &mut actions,
                    LoginAction::Send(
                        AppEvent::Log(
                            "Stored Microsoft session is invalid; please sign in again.".to_owned(),
                        ),
                    ),
                );
                emit(&mut actions, LoginAction::Send(AppEvent::auth_failed(message)));
            },
            (RestoreStage::Saving, LoginReply::Done) => {
                if let Some(player) = &self.player {
                    let event = success_event(player);
                    self.stage = RestoreStage::Over;
                    emit(&mut actions, LoginAction::Send(event));
                }
            },
            (RestoreStage::Saving, LoginReply::Failed(error)) => {
                if let Some(player) = &self.player {
                    let event = success_event(player);
                    let line = concat2(
                        "[WARN] Failed to rotate stored refresh token: ",
                        error.as_str(),
                    );
                    self.stage = RestoreStage::Over;
                    emit(&mut actions, LoginAction::Send(AppEvent::Log(line)));
                    emit(&mut actions, LoginAction::Send(event));
                }
            },
            _ => {},
        }
        actions
    }
}

/// A code is exchanged only for a callback that repeats the state of the login.
pub proof fn law_state_guards_the_exchange(v: LoginView, reply: LoginReply, i: int)
    requires
        0 <= i < login_step(v, reply).1.len(),
        login_step(v, reply).1[i] is ExchangeCode,
    ensures
        v.stage == LoginStage::Awaiting,
        reply matches LoginReply::Callback(callback) && (address::parsed_url(callback@) matches Some(
            (_, pairs),
        ) && auth::last_value(pairs, "state"@, pairs.len() as int) == Some(v.state)),
{
}

/// Whether an event ends signing in.
pub open spec fn ends_login(action: LoginActionView) -> bool {
    match action {
        LoginActionView::Send(EventView::SignedIn { .. }) => true,
        LoginActionView::Send(EventView::SignInFailed(_)) => true,
        LoginActionView::ReportMalformedCallback => true,
        _ => false,
    }
}

/// The player is told once how signing in ended: a step that ends it says so in
/// its last action, no other action says so, and nothing follows the end.
pub proof fn law_login_ends_once(v: LoginView, reply: LoginReply)
    ensures
        v.stage == LoginStage::Over ==> login_step(v, reply) == (v, Seq::<LoginActionView>::empty()),
        ({
            let (next, actions) = login_step(v, reply);
            &&& v.stage != LoginStage::Over && next.stage == LoginStage::Over ==> actions.len() > 0
                && ends_login(actions.last())
            &&& forall|i: int|
                0 <= i < actions.len() && ends_login(#[trigger] actions[i]) ==> next.stage
                    == LoginStage::Over && i == actions.len() - 1
        }),
{
}

/// A session that cannot be restored is forgotten, and one that is restored is
/// stored anew before the player is told.
pub proof fn law_restored_session_is_stored(v: RestoreView, reply: LoginReply, i: int)
    requires
        0 <= i < restore_step(v, reply).1.len(),
    ensures
        restore_step(v, reply).1[i] matches LoginActionView::Send(EventView::SignedIn { .. })
            ==> v.stage == RestoreStage::Saving,
        restore_step(v, reply).1[i] matches LoginActionView::Send(EventView::SignInFailed(_))
            ==> restore_step(v, reply).1[0] is ClearToken,
{
}

/// The player that an exchange ends with has the refresh token that came with the
/// tokens and the access token of the game session.
pub proof fn law_exchange_keeps_the_tokens(v: ExchangeView, reply: ExchangeReply)
    requires
        v.outcome is None,
    ensures
        exchange_step(v, reply).0.outcome matches Some(Ok(player)) ==> player.refresh_token
            == v.refresh_token && player.access_token == v.access_token,
        exchange_step(v, reply).1 is Some ==> exchange_step(v, reply).0.outcome is None,
{
}

/// An exchange goes through all services in turn, and hands each what the one before
/// gave: the token to Xbox Live, its token to the security service, the identity of
/// user and token to the game, whose token looks up the player.
pub proof fn law_tokens_are_handed_on(v: ExchangeView, reply: ExchangeReply)
    ensures
        ({
            let (next, asked) = exchange_step(v, reply);
            &&& v.stage == ExchangeStage::Token ==> (reply matches ExchangeReply::Token {
                access_token,
                refresh_token,
                error,
            } ==> (error is None ==> next.stage == ExchangeStage::Xbl && next.refresh_token
                == refresh_token@ && asked == Some(ExchangeActionView::Xbl(access_token@))))
            &&& v.stage == ExchangeStage::Xbl ==> (reply matches ExchangeReply::Xbl {
                token,
                userhashes,
            } ==> (userhashes@.len() > 0 ==> next.stage == ExchangeStage::Xsts && next.userhash
                == userhashes@[0]@ && asked == Some(ExchangeActionView::Xsts(token@))))
            &&& v.stage == ExchangeStage::Xsts ==> (reply matches ExchangeReply::Xsts(token)
                ==> next.stage == ExchangeStage::Login && asked == Some(
                ExchangeActionView::Login("XBL3.0 x="@ + v.userhash + ";"@ + token@),
            ))
            &&& v.stage == ExchangeStage::Login ==> (reply matches ExchangeReply::Login(token)
                ==> next.stage == ExchangeStage::Profile && next.access_token == token@ && asked
                == Some(ExchangeActionView::Profile(token@)))
            &&& v.stage == ExchangeStage::Profile ==> (reply matches ExchangeReply::Profile {
                id,
                name,
            } ==> next.stage == ExchangeStage::Over && asked is None && next.outcome == Some(
                Ok::<SignedInView, Seq<char>>(
                    SignedInView {
                        username: name@,
                        uuid: id@,
                        access_token: v.access_token,
                        refresh_token: v.refresh_token,
                    },
                ),
            ))
            &&& next.kind == v.kind
            &&& v.stage != ExchangeStage::Token ==> next.refresh_token == v.refresh_token
            &&& v.stage != ExchangeStage::Xbl ==> next.userhash == v.userhash
            &&& v.stage != ExchangeStage::Login ==> next.access_token == v.access_token
        }),
        forall|kind: ExchangeKind|
            #![trigger exchange_start(kind)]
            exchange_start(kind).0.stage == ExchangeStage::Token && exchange_start(kind).0.kind
                == kind && exchange_start(kind).0.outcome is None && exchange_start(kind).1 == Some(
                ExchangeActionView::RequestToken,
            ),
{
}

/// What ends an exchange: any failure, with its text; tokens that came with an error;
/// an answer without a user. A reply that is not waited for changes nothing.
pub proof fn law_failure_ends_the_exchange(v: ExchangeView, reply: ExchangeReply)
    requires
        v.stage != ExchangeStage::Over,
    ensures
        ({
            let (next, asked) = exchange_step(v, reply);
            &&& reply matches ExchangeReply::Failed(error) ==> next.stage == ExchangeStage::Over
                && next.outcome == Some(Err::<SignedInView, Seq<char>>(error@)) && asked is None
            &&& v.stage == ExchangeStage::Token ==> (reply matches ExchangeReply::Token {
                error: Some(error),
                ..
            } ==> next.stage == ExchangeStage::Over && asked is None && next.outcome == Some(
                Err::<SignedInView, Seq<char>>(
                    (if v.kind == ExchangeKind::Code {
                        "authorization token exchange returned error: "@
                    } else {
                        "authorization token refresh returned error: "@
                    }) + error@,
                ),
            ))
            &&& v.stage == ExchangeStage::Xbl ==> (reply matches ExchangeReply::Xbl {
                userhashes,
                ..
            } ==> (userhashes@.len() == 0 ==> next.stage == ExchangeStage::Over && asked is None
                && next.outcome == Some(
                Err::<SignedInView, Seq<char>>("xbl response missing user hash"@),
            )))
            &&& next.stage == v.stage ==> next == v && asked is None
            &&& next.stage != v.stage && next.stage != ExchangeStage::Over ==> asked is Some
                && next.outcome == v.outcome
        }),
{
}

/// How signing in begins: the player is told, and the port of the redirect address is
/// listened on. A setting that cannot be used ends it at once.
pub proof fn law_login_listens_on_the_redirect(setting: Option<Seq<char>>)
    ensures
        ({
            let (v, actions) = login_start(setting);
            let told = LoginActionView::Send(
                EventView::StatusUpdate("Starting Microsoft sign-in..."@),
            );
            &&& auth::redirect_uri(setting) matches Some(uri) ==> v.stage == LoginStage::Listening
                && v.redirect_uri == uri && v.player is None && actions == seq![
                told,
                LoginActionView::Listen(auth::loopback_port(uri)->0 as u16),
            ]
            &&& auth::redirect_uri(setting) is None ==> v.stage == LoginStage::Over && actions
                == seq![
                told,
                LoginActionView::Send(
                    EventView::SignInFailed(
                        "LUCENT_MS_REDIRECT_URI must be an http loopback URL with an explicit port, e.g. http://localhost:53682/callback"@,
                    ),
                ),
            ]
        }),
{
    auth::law_redirect_has_a_port(setting);
}

/// Signing in goes on in order: once it listens, the login is made for its redirect
/// address, its page is opened and the callback awaited; a code is exchanged, the
/// refresh token stored, and then the player is told.
pub proof fn law_no_stage_of_login_is_left_out(v: LoginView, reply: LoginReply)
    ensures
        ({
            let (next, actions) = login_step(v, reply);
            &&& v.stage == LoginStage::Listening && reply is Done ==> next.stage
                == LoginStage::Preparing && actions == seq![
                LoginActionView::MakeLogin { redirect_uri: v.redirect_uri },
            ]
            &&& v.stage == LoginStage::Preparing ==> (reply matches LoginReply::Login {
                url,
                state,
                verifier,
            } ==> next.stage == LoginStage::Awaiting && next.state == state@ && next.verifier
                == verifier@ && actions.contains(
                LoginActionView::Send(EventView::OpenUrl(url@)),
            ) && actions.last() == LoginActionView::AwaitCallback(180_000_000_000))
            &&& v.stage == LoginStage::Exchanging ==> (reply matches LoginReply::SignedIn(player)
                ==> next.stage == LoginStage::Saving && next.player == Some(player@) && actions
                == seq![LoginActionView::SaveToken(player.refresh_token@)])
            &&& v.stage == LoginStage::Saving && (reply is Done || reply is Failed) ==> (
            v.player matches Some(player) ==> next.stage == LoginStage::Over && actions.last()
                == LoginActionView::Send(
                EventView::SignedIn {
                    username: player.username,
                    uuid: player.uuid,
                    access_token: player.access_token,
                    refresh_token: player.refresh_token,
                },
            ))
            &&& next.redirect_uri == v.redirect_uri
            &&& v.stage != LoginStage::Preparing ==> next.state == v.state && next.verifier
                == v.verifier
            &&& v.stage != LoginStage::Exchanging ==> next.player == v.player
        }),
{
    if let LoginReply::Login { url, state, verifier } = reply {
        let actions = login_step(v, reply).1;
        if v.stage == LoginStage::Preparing {
            assert(actions[1] == LoginActionView::Send(EventView::OpenUrl(url@)));
        }
    }
}

/// What follows the callback: a code that came with the state of the login is
/// exchanged, with the verifier and the redirect address of the login. Every other
/// callback ends signing in, and says why.
pub proof fn law_callback_is_exchanged(v: LoginView, callback: String)
    requires
        v.stage == LoginStage::Awaiting,
    ensures
        ({
            let (next, actions) = login_step(v, LoginReply::Callback(callback));
            &&& address::parsed_url(callback@) is None ==> next.stage == LoginStage::Over && actions
                == seq![LoginActionView::ReportMalformedCallback]
            &&& address::parsed_url(callback@) matches Some((_, pairs)) ==> match (
                auth::callback_values(pairs)
            ) {
                Some((code, Some(state))) if state == v.state => next.stage
                    == LoginStage::Exchanging && actions == seq![
                    LoginActionView::ExchangeCode {
                        redirect_uri: v.redirect_uri,
                        code,
                        verifier: v.verifier,
                    },
                ],
                Some(_) => next.stage == LoginStage::Over && actions == seq![
                    LoginActionView::Send(
                        EventView::SignInFailed(
                            "OAuth callback state mismatch; aborting login for safety"@,
                        ),
                    ),
                ],
                None => next.stage == LoginStage::Over && actions == seq![
                    LoginActionView::Send(
                        EventView::SignInFailed(
                            "Failed parsing OAuth callback: oauth callback did not contain an authorization code"@,
                        ),
                    ),
                ],
            }
        }),
{
}

/// What is told of a failure: what could not be done and why. It ends signing in; only
/// a token that cannot be stored does not keep the player out.
pub proof fn law_failed_login_says_why(v: LoginView, error: String)
    ensures
        ({
            let (next, actions) = login_step(v, LoginReply::Failed(error));
            &&& v.stage == LoginStage::Listening ==> next.stage == LoginStage::Over && actions
                == seq![
                LoginActionView::Send(
                    EventView::SignInFailed("Failed to open local callback port: "@ + error@),
                ),
            ]
            &&& v.stage == LoginStage::Awaiting ==> next.stage == LoginStage::Over && actions
                == seq![LoginActionView::Send(EventView::SignInFailed(error@))]
            &&& v.stage == LoginStage::Exchanging ==> next.stage == LoginStage::Over && actions
                == seq![
                LoginActionView::Send(
                    EventView::SignInFailed("Microsoft login failed: "@ + error@),
                ),
            ]
            &&& v.stage == LoginStage::Saving && v.player is Some ==> actions.len() == 2
                && actions[0] == LoginActionView::Send(
                EventView::Log(
                    "[WARN] Signed in, but failed to store refresh token in keyring: "@ + error@,
                ),
            )
        }),
{
}

/// A session is restored with the stored token: the new token is stored, and then the
/// player is told, also where it could not be stored. A session that is not granted is
/// forgotten, and the player told to sign in again.
pub proof fn law_session_is_restored(v: RestoreView, reply: LoginReply)
    ensures
        restore_start().0.stage == RestoreStage::Exchanging,
        restore_start().1.last() is ExchangeRefreshToken,
        ({
            let (next, actions) = restore_step(v, reply);
            &&& v.stage == RestoreStage::Exchanging ==> (reply matches LoginReply::SignedIn(player)
                ==> next.stage == RestoreStage::Saving && next.player == Some(player@) && actions
                == seq![LoginActionView::SaveToken(player.refresh_token@)])
            &&& v.stage == RestoreStage::Exchanging ==> (reply matches LoginReply::Failed(error)
                ==> next.stage == RestoreStage::Over && actions.len() == 3
                && actions[0] is ClearToken && actions[2] == LoginActionView::Send(
                EventView::SignInFailed("Microsoft session restore failed: "@ + error@),
            ))
            &&& v.stage == RestoreStage::Saving && (reply is Done || reply is Failed) ==> (
            v.player matches Some(player) ==> next.stage == RestoreStage::Over && next.player
                == v.player && actions.last() == LoginActionView::Send(
                EventView::SignedIn {
                    username: player.username,
                    uuid: player.uuid,
                    access_token: player.access_token,
                    refresh_token: player.refresh_token,
                },
            ))
            &&& v.stage == RestoreStage::Over ==> next == v && actions.len() == 0
        }),
{
}

/// What is told while a session is restored and while a player signs in: what is done,
/// the page to open, and what went wrong with the stored token.
pub proof fn law_signing_in_is_told(
    v: LoginView,
    url: String,
    state: String,
    verifier: String,
    r: RestoreView,
    error: String,
)
    ensures
        restore_start().1 == seq![
            LoginActionView::Send(EventView::StatusUpdate("Restoring Microsoft session..."@)),
            LoginActionView::ExchangeRefreshToken,
        ],
        restore_start().0.player is None,
        r.stage == RestoreStage::Exchanging ==> restore_step(r, LoginReply::Failed(error)).1[1]
            == LoginActionView::Send(
            EventView::Log("Stored Microsoft session is invalid; please sign in again."@),
        ),
        r.stage == RestoreStage::Saving && r.player is Some ==> restore_step(
            r,
            LoginReply::Failed(error),
        ).1.len() == 2 && restore_step(r, LoginReply::Failed(error)).1[0] == LoginActionView::Send(
            EventView::Log("[WARN] Failed to rotate stored refresh token: "@ + error@),
        ),
        r.stage == RestoreStage::Saving && r.player is Some ==> restore_step(
            r,
            LoginReply::Done,
        ).1.len() == 1,
        v.stage == LoginStage::Preparing ==> login_step(
            v,
            LoginReply::Login { url, state, verifier },
        ).1 == seq![
            LoginActionView::Send(
                EventView::Log(
                    "Open browser for Microsoft login. Redirect URI: "@ + v.redirect_uri,
                ),
            ),
            LoginActionView::Send(EventView::OpenUrl(url@)),
            LoginActionView::Send(
                EventView::StatusUpdate("Waiting for Microsoft login in browser..."@),
            ),
            LoginActionView::AwaitCallback(auth::CALLBACK_TIMEOUT),
        ],
        v.stage == LoginStage::Saving && v.player is Some ==> login_step(
            v,
            LoginReply::Done,
        ).1.len() == 1,
{
}

} // verus!
