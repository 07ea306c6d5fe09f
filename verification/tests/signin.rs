use lucent_launcher::auth::{
    accepted_profile, accepted_token, auth_code_and_state, authenticate_with_minecraft_access_token,
    callback_in_bytes, callback_in_request, callback_response, fetch_minecraft_profile,
    identity_token, parse_auth_code_and_state, parse_loopback_port_from_redirect_uri,
    resolve_microsoft_redirect_uri, wait_for_oauth_redirect, AnswerError, CallbackError,
    ServiceError, WaitAction, WaitEvent,
};
use lucent_launcher::messages::{AppEvent, AuthEvent};
use lucent_launcher::session::{load_saved_refresh_token, Session};
use lucent_launcher::signin::{
    ExchangeAction, ExchangeKind, ExchangeReply, ExchangeRun, LoginAction, LoginReply, LoginRun,
    RestoreRun, SignedIn,
};

fn player() -> SignedIn {
    SignedIn {
        username: "Alex".to_string(),
        uuid: "u-1".to_string(),
        access_token: "game".to_string(),
        refresh_token: "renew".to_string(),
    }
}

#[test]
fn last_code_and_state_win() {
    let (code, state) =
        parse_auth_code_and_state("http://127.0.0.1:1/cb?code=a&state=x%20y&code=b+c").unwrap();
    assert_eq!(code, "b c");
    assert_eq!(state.as_deref(), Some("x y"));
    assert!(matches!(
        parse_auth_code_and_state("http://127.0.0.1:1/cb?state=x"),
        Err(CallbackError::NoCode)
    ));
    assert!(matches!(
        parse_auth_code_and_state("http://127.0.0.1:1/cb?code="),
        Err(CallbackError::NoCode)
    ));
    assert!(matches!(parse_auth_code_and_state("callback"), Err(CallbackError::Malformed(_))));
    let pairs = vec![("code".to_string(), "c".to_string())];
    assert_eq!(auth_code_and_state(&pairs), Some(("c".to_string(), None)));
}

#[test]
fn redirect_has_a_loopback_port() {
    assert_eq!(
        parse_loopback_port_from_redirect_uri("http://localhost:53682/callback"),
        Some(53682)
    );
    assert_eq!(parse_loopback_port_from_redirect_uri("http://127.0.0.1:80"), Some(80));
    assert_eq!(parse_loopback_port_from_redirect_uri("http://localhost/callback"), None);
    assert_eq!(parse_loopback_port_from_redirect_uri("http://localhost:65536/"), None);
    assert_eq!(parse_loopback_port_from_redirect_uri("https://localhost:1/"), None);
    assert_eq!(
        resolve_microsoft_redirect_uri(None).unwrap(),
        "http://localhost:53682/callback"
    );
    assert_eq!(
        resolve_microsoft_redirect_uri(Some("  ")).unwrap(),
        "http://localhost:53682/callback"
    );
    assert_eq!(
        resolve_microsoft_redirect_uri(Some(" http://127.0.0.1:9/cb ")).unwrap(),
        "http://127.0.0.1:9/cb"
    );
    assert_eq!(
        resolve_microsoft_redirect_uri(Some("http://example.com/")).unwrap_err(),
        "LUCENT_MS_REDIRECT_URI must be an http loopback URL with an explicit port, e.g. http://localhost:53682/callback"
    );
}

#[test]
fn callback_is_read_from_the_request() {
    let request = "GET /callback?code=1 HTTP/1.1\r\nHost: localhost\r\n\r\n";
    assert_eq!(
        callback_in_request(request, 53682).as_deref(),
        Some("http://127.0.0.1:53682/callback?code=1")
    );
    assert_eq!(callback_in_request("POST / HTTP/1.1\r\n", 1), None);
    assert_eq!(callback_in_request("GET\r\n", 1), None);
    assert_eq!(callback_in_request("", 1), None);
    assert_eq!(
        callback_in_bytes(b"GET /\xff HTTP/1.1", 8).as_deref(),
        Some("http://127.0.0.1:8/\u{fffd}")
    );
}

#[test]
fn callback_answer_counts_its_page() {
    let response = callback_response();
    let (head, body) = response.split_once("\r\n\r\n").unwrap();
    assert!(head.starts_with("HTTP/1.1 200 OK\r\nContent-Type: text/html; charset=utf-8\r\n"));
    assert!(head.contains(&format!("Content-Length: {}\r\n", body.len())));
    assert!(head.ends_with("Connection: close"));
    assert!(body.starts_with("<html><body><h2>Login complete</h2>"));
}

fn wait_failure(action: WaitAction) -> String {
    match action {
        WaitAction::Fail(error) => error,
        other => panic!("{other:?}"),
    }
}

#[test]
fn callback_is_waited_for() {
    let wait = |event| wait_for_oauth_redirect(event, 8, 1000);
    assert!(matches!(wait(WaitEvent::Elapsed(1000)), WaitAction::Accept));
    assert_eq!(
        wait_failure(wait(WaitEvent::Elapsed(1001))),
        "Timed out waiting for Microsoft sign-in callback"
    );
    assert!(matches!(wait(WaitEvent::NoConnection), WaitAction::Pause(100)));
    assert!(matches!(wait(WaitEvent::Request(Vec::new())), WaitAction::Measure));
    let request = b"POST /?code=1 HTTP/1.1\r\n".to_vec();
    assert!(matches!(wait(WaitEvent::Request(request)), WaitAction::Measure));
    let request = b"GET /?code=1 HTTP/1.1\r\n".to_vec();
    match wait(WaitEvent::Request(request)) {
        WaitAction::Answer { callback, response } => {
            assert_eq!(callback, "http://127.0.0.1:8/?code=1");
            assert_eq!(response, callback_response());
        }
        other => panic!("{other:?}"),
    }
    assert_eq!(
        wait_failure(wait(WaitEvent::ReadFailed("reset".to_string()))),
        "failed reading oauth callback request: reset"
    );
    assert_eq!(
        wait_failure(wait(WaitEvent::ListenFailed("closed".to_string()))),
        "oauth callback listener failed: closed"
    );
}

#[test]
fn answers_of_the_services_are_read() {
    assert_eq!(
        authenticate_with_minecraft_access_token(true, "{\"access_token\":\"t\"}").unwrap(),
        "t"
    );
    assert!(matches!(
        authenticate_with_minecraft_access_token(true, "{\"access_token\":\"\"}"),
        Err(ServiceError::Answer(AnswerError::NoAccessToken, _))
    ));
    assert!(matches!(
        authenticate_with_minecraft_access_token(true, "{\"access_token\":1}"),
        Err(ServiceError::Answer(AnswerError::NoAccessToken, _))
    ));
    assert!(matches!(
        authenticate_with_minecraft_access_token(false, "{\"access_token\":\"t\"}"),
        Err(ServiceError::Answer(AnswerError::Refused, _))
    ));
    assert!(matches!(
        authenticate_with_minecraft_access_token(true, "oops"),
        Err(ServiceError::Malformed(_))
    ));
    assert_eq!(
        fetch_minecraft_profile(true, "{\"id\":\"1\",\"name\":\"Alex\"}").unwrap(),
        ("1".to_string(), "Alex".to_string())
    );
    assert!(matches!(
        fetch_minecraft_profile(true, "{\"name\":\"Alex\"}"),
        Err(ServiceError::Answer(AnswerError::NoId, _))
    ));
    assert!(matches!(
        fetch_minecraft_profile(true, "{\"id\":\"1\"}"),
        Err(ServiceError::Answer(AnswerError::NoName, _))
    ));
    assert!(matches!(
        fetch_minecraft_profile(false, "[]"),
        Err(ServiceError::Answer(AnswerError::Refused, _))
    ));
    assert!(matches!(fetch_minecraft_profile(true, ""), Err(ServiceError::Malformed(_))));
    assert_eq!(accepted_token(true, None), Err(AnswerError::NoAccessToken));
    assert_eq!(
        accepted_profile(true, None, Some("n".to_string())),
        Err(AnswerError::NoId)
    );
    assert_eq!(identity_token("hash", "token"), "XBL3.0 x=hash;token");
}

#[test]
fn blank_stored_token_is_none() {
    assert_eq!(load_saved_refresh_token(Some(" \n".to_string())), None);
    assert_eq!(load_saved_refresh_token(Some(" t".to_string())), Some(" t".to_string()));
    assert_eq!(load_saved_refresh_token(None), None);
}

#[test]
fn exchange_goes_through_all_services() {
    let (mut run, action) = ExchangeRun::start(ExchangeKind::Code);
    assert_eq!(action, ExchangeAction::RequestToken);
    let action = run.step(ExchangeReply::Token {
        access_token: "ms".to_string(),
        refresh_token: "renew".to_string(),
        error: None,
    });
    assert_eq!(action, Some(ExchangeAction::Xbl("ms".to_string())));
    assert_eq!(run.step(ExchangeReply::Login("early".to_string())), None);
    let action = run.step(ExchangeReply::Xbl {
        token: "xbl".to_string(),
        userhashes: vec!["uhs".to_string(), "other".to_string()],
    });
    assert_eq!(action, Some(ExchangeAction::Xsts("xbl".to_string())));
    let action = run.step(ExchangeReply::Xsts("xsts".to_string()));
    assert_eq!(action, Some(ExchangeAction::Login("XBL3.0 x=uhs;xsts".to_string())));
    let action = run.step(ExchangeReply::Login("game".to_string()));
    assert_eq!(action, Some(ExchangeAction::Profile("game".to_string())));
    let action = run.step(ExchangeReply::Profile {
        id: "u-1".to_string(),
        name: "Alex".to_string(),
    });
    assert_eq!(action, None);
    assert_eq!(run.outcome(), Some(Ok(player())));
}

#[test]
fn exchange_reports_errors() {
    let token = |error: &str| ExchangeReply::Token {
        access_token: String::new(),
        refresh_token: String::new(),
        error: Some(error.to_string()),
    };
    let (mut run, _) = ExchangeRun::start(ExchangeKind::Refresh);
    run.step(token("expired"));
    assert_eq!(
        run.outcome(),
        Some(Err("authorization token refresh returned error: expired".to_string()))
    );
    let (mut run, _) = ExchangeRun::start(ExchangeKind::Code);
    run.step(token("denied"));
    assert_eq!(
        run.outcome(),
        Some(Err("authorization token exchange returned error: denied".to_string()))
    );
    let (mut run, _) = ExchangeRun::start(ExchangeKind::Code);
    run.step(ExchangeReply::Token {
        access_token: String::new(),
        refresh_token: String::new(),
        error: None,
    });
    run.step(ExchangeReply::Xbl { token: String::new(), userhashes: Vec::new() });
    assert_eq!(run.outcome(), Some(Err("xbl response missing user hash".to_string())));
}

fn awaiting_callback() -> LoginRun {
    let (mut run, actions) = LoginRun::start(None);
    assert!(matches!(actions[1], LoginAction::Listen(53682)));
    let actions = run.step(LoginReply::Done);
    assert!(matches!(&actions[0], LoginAction::MakeLogin { redirect_uri }
        if redirect_uri == "http://localhost:53682/callback"));
    let actions = run.step(LoginReply::Login {
        url: "https://login".to_string(),
        state: "s3".to_string(),
        verifier: "v".to_string(),
    });
    assert!(matches!(&actions[1], LoginAction::Send(AppEvent::OpenUrl(url)) if url == "https://login"));
    assert!(matches!(actions[3], LoginAction::AwaitCallback(180_000_000_000)));
    run
}

fn failure(action: &LoginAction) -> &str {
    match action {
        LoginAction::Send(AppEvent::Auth(AuthEvent::MicrosoftFailed(error))) => error,
        other => panic!("{other:?}"),
    }
}

#[test]
fn login_exchanges_the_code() {
    let mut run = awaiting_callback();
    let callback = "http://127.0.0.1:53682/callback?code=c&state=s3".to_string();
    let actions = run.step(LoginReply::Callback(callback));
    assert!(matches!(&actions[0], LoginAction::ExchangeCode { code, verifier, .. }
        if code == "c" && verifier == "v"));
    let actions = run.step(LoginReply::SignedIn(player()));
    assert!(matches!(&actions[0], LoginAction::SaveToken(token) if token == "renew"));
    let actions = run.step(LoginReply::Failed("locked".to_string()));
    assert!(matches!(&actions[0], LoginAction::Send(AppEvent::Log(line))
        if line == "[WARN] Signed in, but failed to store refresh token in keyring: locked"));
    assert!(matches!(
        &actions[1],
        LoginAction::Send(AppEvent::Auth(AuthEvent::MicrosoftSuccess { username, .. }))
            if username == "Alex"
    ));
    assert!(run.step(LoginReply::Done).is_empty());
}

#[test]
fn state_mismatch_aborts_the_login() {
    let mut run = awaiting_callback();
    let callback = "http://127.0.0.1:53682/callback?code=c&state=other".to_string();
    let actions = run.step(LoginReply::Callback(callback));
    assert_eq!(actions.len(), 1);
    assert_eq!(
        failure(&actions[0]),
        "OAuth callback state mismatch; aborting login for safety"
    );
    let mut run = awaiting_callback();
    let actions = run.step(LoginReply::Callback("http://127.0.0.1:53682/callback?code=c".to_string()));
    assert_eq!(
        failure(&actions[0]),
        "OAuth callback state mismatch; aborting login for safety"
    );
}

#[test]
fn login_reports_failures() {
    let mut run = awaiting_callback();
    let actions = run.step(LoginReply::Callback("http://127.0.0.1:53682/callback".to_string()));
    assert_eq!(
        failure(&actions[0]),
        "Failed parsing OAuth callback: oauth callback did not contain an authorization code"
    );
    let mut run = awaiting_callback();
    let actions = run.step(LoginReply::Callback("http://127.0.0.1:port".to_string()));
    assert!(matches!(actions[0], LoginAction::ReportMalformedCallback(_)));
    let (mut run, _) = LoginRun::start(None);
    let actions = run.step(LoginReply::Failed("in use".to_string()));
    assert_eq!(failure(&actions[0]), "Failed to open local callback port: in use");
    let (_, actions) = LoginRun::start(Some("nowhere"));
    assert!(failure(&actions[1]).starts_with("LUCENT_MS_REDIRECT_URI must be"));
}

#[test]
fn restoring_forgets_a_session_that_is_invalid() {
    let (mut run, actions) = RestoreRun::start();
    assert!(matches!(actions[1], LoginAction::ExchangeRefreshToken));
    let actions = run.step(LoginReply::Failed("gone".to_string()));
    assert!(matches!(actions[0], LoginAction::ClearToken));
    assert_eq!(failure(&actions[2]), "Microsoft session restore failed: gone");
    let (mut run, _) = RestoreRun::start();
    let actions = run.step(LoginReply::SignedIn(player()));
    assert!(matches!(&actions[0], LoginAction::SaveToken(token) if token == "renew"));
    let actions = run.step(LoginReply::Done);
    assert_eq!(actions.len(), 1);
}

#[test]
fn session_shows_the_player() {
    let session = Session::Offline { username: "Steve".to_string() };
    assert_eq!(session.display_name(), "Steve");
    assert_eq!(session.clone(), session);
}
