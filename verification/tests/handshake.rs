use oauth_handshake::answer::{diagnostic, read_answer, read_member, Stage};
use oauth_handshake::authorize::{build_authorization_url, check_authorization_url};
use oauth_handshake::config::ProviderCredentials;
use oauth_handshake::error::ErrorKind;
use oauth_handshake::flow::{AuthFlow, CallbackParams, Phase, Step};
use oauth_handshake::http::{status_is_success, Field, HttpOutcome, HttpRequest, Method};
use oauth_handshake::json::JsonField;
use oauth_handshake::pkce::code_challenge;
use oauth_handshake::session::{PendingAuth, SessionStore};

const STATE: &str = "abcdefghijklmnopqrstuvwxyz0123";
const VERIFIER: &str = "dBjftJeZ4CVP-mB92K27uhbUJU1p1r_wW1gFWFOEjXk";
const CHALLENGE: &str = "E9Melhoa2OwvFrEMTJguCHaoeK1t8URWbuGJSstw-cM";
const SECRET: &str = "0123456789abcdef0123456789abcdef01234567";

fn flow() -> AuthFlow {
    AuthFlow::new(ProviderCredentials::new(
        Some("Iv1.client".to_string()),
        Some(SECRET.to_string()),
        None,
    ))
}

fn flow_without(client_id: bool, client_secret: bool) -> AuthFlow {
    AuthFlow::new(ProviderCredentials::new(
        if client_id { Some("Iv1.client".to_string()) } else { None },
        if client_secret { Some(SECRET.to_string()) } else { None },
        None,
    ))
}

fn pending_store() -> SessionStore {
    let mut store = SessionStore::new();
    store.put(PendingAuth::new(STATE.to_string(), VERIFIER.to_string()).expect("valid secrets"));
    store
}

fn callback(code: &str, state: &str) -> CallbackParams {
    CallbackParams { code: code.to_string(), state: state.to_string() }
}

fn answer(status: u16, body: &str) -> HttpOutcome {
    HttpOutcome::Response { status, body: Some(body.to_string()) }
}

fn pairs(fields: &[Field]) -> Vec<(&str, &str)> {
    fields.iter().map(|f| (f.name.as_str(), f.value.as_str())).collect()
}

/// Runs a completion against canned answers, as a shell would against the
/// provider, and records every request that was made.
fn drive(
    flow: &AuthFlow,
    store: &mut SessionStore,
    callback: &CallbackParams,
    answers: Vec<HttpOutcome>,
) -> (Phase, Vec<HttpRequest>) {
    let mut answers = answers.into_iter();
    let mut sent = Vec::new();
    let mut step = flow.complete(store, callback);
    loop {
        let Step { phase, request } = step;
        match request {
            None => return (phase, sent),
            Some(request) => {
                sent.push(request);
                let outcome = answers.next().expect("an answer for every request");
                step = flow.advance(phase, outcome);
            }
        }
    }
}

fn rejection(phase: Phase) -> (ErrorKind, String) {
    match phase {
        Phase::Rejected(error) => (error.kind, error.detail),
        other => panic!("not rejected: {other:?}"),
    }
}

// begin

#[test]
fn authorization_url_is_written_out_in_full() {
    let url = build_authorization_url("Iv1.client", "renox://auth/github/callback", STATE, CHALLENGE);
    assert_eq!(
        url,
        "https://github.com/login/oauth/authorize?client_id=Iv1.client\
         &redirect_uri=renox://auth/github/callback&scope=read:user\
         &state=abcdefghijklmnopqrstuvwxyz0123&code_challenge_method=S256\
         &code_challenge=E9Melhoa2OwvFrEMTJguCHaoeK1t8URWbuGJSstw-cM"
    );
}

#[test]
fn begin_with_known_secrets_gives_the_known_url() {
    let mut store = SessionStore::new();
    let pending = PendingAuth::new(STATE.to_string(), VERIFIER.to_string()).expect("valid");
    let url = flow().begin_with(&mut store, pending).expect("url");
    assert_eq!(
        url,
        format!(
            "https://github.com/login/oauth/authorize?client_id=Iv1.client\
             &redirect_uri=renox://auth/github/callback&scope=read:user\
             &state={STATE}&code_challenge_method=S256&code_challenge={CHALLENGE}"
        )
    );
    let stored = store.take_and_clear().expect("pending");
    assert_eq!(stored.csrf_token(), STATE);
    assert_eq!(stored.code_verifier(), VERIFIER);
}

#[test]
fn begin_uses_the_configured_redirect_uri() {
    let flow = AuthFlow::new(ProviderCredentials::new(
        Some("id".to_string()),
        None,
        Some("myapp://cb".to_string()),
    ));
    let mut store = SessionStore::new();
    let pending = PendingAuth::new(STATE.to_string(), VERIFIER.to_string()).expect("valid");
    let url = flow.begin_with(&mut store, pending).expect("url");
    assert!(url.contains("&redirect_uri=myapp://cb&scope=read:user&"));
}

#[test]
fn begin_emits_state_and_challenge_of_the_stored_secrets() {
    let mut store = SessionStore::new();
    let url = flow().begin(&mut store).expect("url");
    assert!(url.starts_with("https://github.com/login/oauth/authorize?"));
    assert!(check_authorization_url(&url).is_ok());
    let stored = store.take_and_clear().expect("pending");
    assert_eq!(stored.csrf_token().len(), 30);
    assert_eq!(stored.code_verifier().len(), 64);
    let tail = format!(
        "&state={}&code_challenge_method=S256&code_challenge={}",
        stored.csrf_token(),
        code_challenge(stored.code_verifier())
    );
    assert!(url.ends_with(&tail));
    assert!(url.contains("&scope=read:user&"));
}

#[test]
fn begin_without_client_id_fails_and_stores_nothing() {
    let mut store = SessionStore::new();
    let error = flow_without(false, true).begin(&mut store).expect_err("no client id");
    assert_eq!(error.kind, ErrorKind::Configuration);
    assert_eq!(error.detail, "Missing required environment variable: GITHUB_CLIENT_ID");
    assert!(!store.is_pending());
}

#[test]
fn begin_without_client_id_keeps_the_pending_attempt() {
    let mut store = pending_store();
    let error = flow_without(false, true).begin(&mut store).expect_err("no client id");
    assert_eq!(error.kind, ErrorKind::Configuration);
    let kept = store.take_and_clear().expect("still pending");
    assert_eq!(kept.csrf_token(), STATE);

    let mut store = pending_store();
    let other = PendingAuth::new(STATE.to_uppercase(), VERIFIER.to_string()).expect("valid");
    assert!(flow_without(false, true).begin_with(&mut store, other).is_err());
    assert_eq!(store.take_and_clear().expect("still pending").csrf_token(), STATE);
}

#[test]
fn begin_needs_no_client_secret() {
    let mut store = SessionStore::new();
    assert!(flow_without(true, false).begin(&mut store).is_ok());
    assert!(store.is_pending());
}

#[test]
fn second_begin_supersedes_the_first() {
    let mut store = SessionStore::new();
    let flow = flow();
    let first = flow.begin(&mut store).expect("url");
    let second = flow.begin(&mut store).expect("url");
    assert_ne!(first, second);
    let stored = store.take_and_clear().expect("pending");
    assert!(second.contains(&format!("&state={}&", stored.csrf_token())));
    assert!(!first.contains(&format!("&state={}&", stored.csrf_token())));
}

#[test]
fn url_check_accepts_only_the_authorization_endpoint() {
    assert!(check_authorization_url("https://github.com/login/oauth/authorize?client_id=x").is_ok());
    assert!(check_authorization_url("https://github.com/login/oauth/authorize?").is_ok());
    for url in [
        "",
        "https://github.com/login/oauth/authorize",
        "https://github.com/login/oauth/authorizeX?client_id=x",
        "https://github.com/login/oauth/authorize/../x?client_id=x",
        "http://github.com/login/oauth/authorize?client_id=x",
        "https://github.com.evil.example/login/oauth/authorize?client_id=x",
        "https://evil.example/?https://github.com/login/oauth/authorize?",
        " https://github.com/login/oauth/authorize?client_id=x",
    ] {
        let error = check_authorization_url(url).expect_err(url);
        assert_eq!(error.kind, ErrorKind::Integrity);
        assert_eq!(error.detail, "Invalid authorization URL");
    }
}

// complete: validation

#[test]
fn mismatched_state_is_rejected_without_any_request() {
    let mut store = pending_store();
    let (phase, sent) = drive(&flow(), &mut store, &callback("code", "abcdefghijklmnopqrstuvwxyz0124"), vec![]);
    assert_eq!(sent.len(), 0);
    let (kind, detail) = rejection(phase);
    assert_eq!(kind, ErrorKind::Csrf);
    assert_eq!(detail, "Invalid OAuth state; possible CSRF");
    assert!(!store.is_pending());
}

#[test]
fn state_must_match_exactly() {
    for state in ["", "abcdefghijklmnopqrstuvwxyz012", "abcdefghijklmnopqrstuvwxyz01234", "ABCDEFGHIJKLMNOPQRSTUVWXYZ0123", " abcdefghijklmnopqrstuvwxyz0123"] {
        let mut store = pending_store();
        let (phase, sent) = drive(&flow(), &mut store, &callback("code", state), vec![]);
        assert_eq!(sent.len(), 0);
        assert_eq!(rejection(phase).0, ErrorKind::Csrf);
    }
}

#[test]
fn callback_without_pending_attempt_is_rejected() {
    let mut store = SessionStore::new();
    let (phase, sent) = drive(&flow(), &mut store, &callback("code", STATE), vec![]);
    assert_eq!(sent.len(), 0);
    assert_eq!(rejection(phase).0, ErrorKind::Csrf);
}

#[test]
fn state_of_a_superseded_attempt_is_rejected() {
    let mut store = pending_store();
    let flow = flow();
    flow.begin(&mut store).expect("url");
    let (phase, sent) = drive(&flow, &mut store, &callback("code", STATE), vec![]);
    assert_eq!(sent.len(), 0);
    assert_eq!(rejection(phase).0, ErrorKind::Csrf);
}

#[test]
fn second_completion_of_one_callback_is_rejected() {
    let mut store = pending_store();
    let flow = flow();
    let cb = callback("code", STATE);
    let (first, sent) = drive(
        &flow,
        &mut store,
        &cb,
        vec![answer(200, r#"{"access_token":"abc123"}"#), answer(200, r#"{"login":"octocat"}"#)],
    );
    assert!(matches!(first, Phase::Done(_)));
    assert_eq!(sent.len(), 2);
    let (second, sent) = drive(&flow, &mut store, &cb, vec![]);
    assert_eq!(sent.len(), 0);
    assert_eq!(rejection(second).0, ErrorKind::Csrf);
}

#[test]
fn rejected_callback_consumes_the_attempt() {
    let mut store = pending_store();
    let flow = flow();
    let (phase, _) = drive(&flow, &mut store, &callback("code", "wrong"), vec![]);
    assert_eq!(rejection(phase).0, ErrorKind::Csrf);
    let (phase, sent) = drive(&flow, &mut store, &callback("code", STATE), vec![]);
    assert_eq!(sent.len(), 0);
    assert_eq!(rejection(phase).0, ErrorKind::Csrf);
}

#[test]
fn completion_without_client_secret_is_a_configuration_failure() {
    let mut store = pending_store();
    let (phase, sent) = drive(&flow_without(true, false), &mut store, &callback("code", STATE), vec![]);
    assert_eq!(sent.len(), 0);
    let (kind, detail) = rejection(phase);
    assert_eq!(kind, ErrorKind::Configuration);
    assert_eq!(detail, "Missing required environment variable: GITHUB_CLIENT_SECRET");
    assert!(!store.is_pending());
}

#[test]
fn completion_without_client_id_is_a_configuration_failure() {
    let mut store = pending_store();
    let (phase, sent) = drive(&flow_without(false, false), &mut store, &callback("code", STATE), vec![]);
    assert_eq!(sent.len(), 0);
    let (kind, detail) = rejection(phase);
    assert_eq!(kind, ErrorKind::Configuration);
    assert_eq!(detail, "Missing required environment variable: GITHUB_CLIENT_ID");
}

#[test]
fn forged_callback_is_rejected_as_forged_even_without_configuration() {
    let mut store = pending_store();
    let (phase, _) = drive(&flow_without(false, false), &mut store, &callback("code", "forged"), vec![]);
    assert_eq!(rejection(phase).0, ErrorKind::Csrf);
}

// complete: the two requests

#[test]
fn token_request_carries_code_and_verifier() {
    let mut store = pending_store();
    let step = flow().complete(&mut store, &callback("the-code", STATE));
    assert!(matches!(step.phase, Phase::Exchanging));
    let request = step.request.expect("token request");
    assert_eq!(request.method, Method::Post);
    assert_eq!(request.url, "https://github.com/login/oauth/access_token");
    assert_eq!(request.timeout_seconds, 30);
    assert!(request.uses_https());
    assert_eq!(
        pairs(&request.headers),
        vec![("User-Agent", "Renox-Loader"), ("Accept", "application/json")]
    );
    assert_eq!(
        pairs(&request.form),
        vec![
            ("client_id", "Iv1.client"),
            ("client_secret", SECRET),
            ("code", "the-code"),
            ("redirect_uri", "renox://auth/github/callback"),
            ("grant_type", "authorization_code"),
            ("code_verifier", VERIFIER),
        ]
    );
    assert!(!store.is_pending());
}

#[test]
fn successful_exchange_and_profile_identify_the_user() {
    let mut store = pending_store();
    let (phase, sent) = drive(
        &flow(),
        &mut store,
        &callback("code", STATE),
        vec![answer(200, r#"{"access_token":"abc123"}"#), answer(200, r#"{"login":"octocat"}"#)],
    );
    assert_eq!(sent.len(), 2);
    let profile = &sent[1];
    assert_eq!(profile.method, Method::Get);
    assert_eq!(profile.url, "https://api.github.com/user");
    assert_eq!(profile.timeout_seconds, 30);
    assert!(profile.uses_https());
    assert!(profile.form.is_empty());
    assert_eq!(
        pairs(&profile.headers),
        vec![("User-Agent", "Renox-Loader"), ("Authorization", "Bearer abc123")]
    );
    match phase {
        Phase::Done(identity) => {
            assert_eq!(identity.username, "octocat");
            assert_eq!(identity.email, None);
            assert!(!format!("{identity:?}").contains("abc123"));
        }
        other => panic!("not done: {other:?}"),
    }
    assert!(!store.is_pending());
}

#[test]
fn phase_between_the_requests_holds_no_token() {
    let step = flow().advance(Phase::Exchanging, answer(200, r#"{"access_token":"abc123"}"#));
    assert!(matches!(step.phase, Phase::FetchingIdentity));
    assert!(!format!("{:?}", step.phase).contains("abc123"));
}

#[test]
fn refused_exchange_quotes_the_provider_and_fetches_no_identity() {
    let mut store = pending_store();
    let (phase, sent) = drive(
        &flow(),
        &mut store,
        &callback("code", STATE),
        vec![answer(400, r#"{"error":"bad_verification_code"}"#)],
    );
    assert_eq!(sent.len(), 1);
    let (kind, detail) = rejection(phase);
    assert_eq!(kind, ErrorKind::TokenExchange);
    assert_eq!(detail, r#"GitHub token API error: {"error":"bad_verification_code"}"#);
    assert!(detail.contains("bad_verification_code"));
    assert!(!detail.contains(SECRET));
}

#[test]
fn refusal_reported_with_success_status_is_a_token_exchange_failure() {
    let mut store = pending_store();
    let (phase, sent) = drive(
        &flow(),
        &mut store,
        &callback("code", STATE),
        vec![answer(200, r#"{"error":"bad_verification_code"}"#)],
    );
    assert_eq!(sent.len(), 1);
    let (kind, detail) = rejection(phase);
    assert_eq!(kind, ErrorKind::TokenExchange);
    assert_eq!(detail, "GitHub token API answer holds no access_token");
}

#[test]
fn malformed_token_answer_is_a_token_exchange_failure() {
    for body in ["", "access_token=abc123&token_type=bearer", "{\"access_token\":\"abc"] {
        let step = flow().advance(Phase::Exchanging, answer(200, body));
        assert!(step.request.is_none());
        let (kind, detail) = rejection(step.phase);
        assert_eq!(kind, ErrorKind::TokenExchange);
        assert_eq!(detail, "GitHub token API answer is not JSON");
    }
    let step = flow().advance(Phase::Exchanging, HttpOutcome::Response { status: 200, body: None });
    let (kind, detail) = rejection(step.phase);
    assert_eq!(kind, ErrorKind::TokenExchange);
    assert_eq!(detail, "GitHub token API answer is not JSON");
}

#[test]
fn refused_profile_is_an_identity_failure() {
    let mut store = pending_store();
    let (phase, sent) = drive(
        &flow(),
        &mut store,
        &callback("code", STATE),
        vec![answer(200, r#"{"access_token":"abc123"}"#), answer(401, r#"{"message":"Bad credentials"}"#)],
    );
    assert_eq!(sent.len(), 2);
    let (kind, detail) = rejection(phase);
    assert_eq!(kind, ErrorKind::IdentityFetch);
    assert_eq!(detail, r#"GitHub user API error: {"message":"Bad credentials"}"#);
    assert!(!detail.contains("abc123"));
}

#[test]
fn malformed_profile_is_an_identity_failure() {
    let step = flow().advance(Phase::FetchingIdentity, answer(200, "<html>"));
    let (kind, detail) = rejection(step.phase);
    assert_eq!(kind, ErrorKind::IdentityFetch);
    assert_eq!(detail, "GitHub user API answer is not JSON");

    let step = flow().advance(Phase::FetchingIdentity, answer(200, r#"{"id":1}"#));
    let (kind, detail) = rejection(step.phase);
    assert_eq!(kind, ErrorKind::IdentityFetch);
    assert_eq!(detail, "GitHub user API answer holds no login");
}

#[test]
fn unreadable_error_body_is_said_to_be_unreadable() {
    let step = flow().advance(Phase::Exchanging, HttpOutcome::Response { status: 502, body: None });
    assert_eq!(
        rejection(step.phase),
        (ErrorKind::TokenExchange, "GitHub token API error: Could not read error body".to_string())
    );
    let step = flow().advance(Phase::FetchingIdentity, HttpOutcome::Response { status: 502, body: None });
    assert_eq!(
        rejection(step.phase),
        (ErrorKind::IdentityFetch, "GitHub user API error: Could not read error body".to_string())
    );
}

#[test]
fn timeout_is_told_apart_from_other_failures() {
    for phase in [Phase::Exchanging, Phase::FetchingIdentity] {
        let step = flow().advance(phase, HttpOutcome::TimedOut);
        assert!(step.request.is_none());
        assert_eq!(
            rejection(step.phase),
            (ErrorKind::NetworkTimeout, "Request to GitHub timed out".to_string())
        );
    }
}

#[test]
fn transport_failure_is_surfaced_as_it_was_reported() {
    let failed = || HttpOutcome::Failed { detail: "connection refused".to_string() };
    let step = flow().advance(Phase::Exchanging, failed());
    assert_eq!(rejection(step.phase), (ErrorKind::TokenExchange, "connection refused".to_string()));
    let step = flow().advance(Phase::FetchingIdentity, failed());
    assert_eq!(rejection(step.phase), (ErrorKind::IdentityFetch, "connection refused".to_string()));
}

#[test]
fn only_the_codes_of_success_count_as_success() {
    for status in [200u16, 201, 204, 299] {
        assert!(status_is_success(status));
    }
    for status in [0u16, 100, 199, 300, 302, 400, 404, 500, 65535] {
        assert!(!status_is_success(status));
    }
    let step = flow().advance(Phase::Exchanging, answer(299, r#"{"access_token":"t"}"#));
    assert!(matches!(step.phase, Phase::FetchingIdentity));
    let step = flow().advance(Phase::Exchanging, answer(300, r#"{"access_token":"t"}"#));
    assert_eq!(rejection(step.phase).0, ErrorKind::TokenExchange);
    let step = flow().advance(Phase::Exchanging, answer(199, r#"{"access_token":"t"}"#));
    assert_eq!(rejection(step.phase).0, ErrorKind::TokenExchange);
}

#[test]
fn completion_that_is_over_stays_over() {
    let flow = flow();
    let step = flow.advance(Phase::FetchingIdentity, answer(200, r#"{"login":"octocat"}"#));
    let step = flow.advance(step.phase, answer(200, r#"{"login":"mallory"}"#));
    assert!(step.request.is_none());
    match step.phase {
        Phase::Done(identity) => assert_eq!(identity.username, "octocat"),
        other => panic!("not done: {other:?}"),
    }
    let step = flow.advance(Phase::Exchanging, HttpOutcome::TimedOut);
    let step = flow.advance(step.phase, answer(200, r#"{"access_token":"abc123"}"#));
    assert!(step.request.is_none());
    assert_eq!(rejection(step.phase).0, ErrorKind::NetworkTimeout);
}

// the client secret in diagnostics

#[test]
fn diagnostic_quotes_a_text_that_is_free_of_the_secret() {
    let secret = Some(SECRET.to_string());
    assert_eq!(diagnostic("prefix: ", "text", &secret), "prefix: text");
    assert_eq!(diagnostic("prefix: ", "text", &None), "prefix: text");
    assert_eq!(diagnostic("prefix: ", SECRET, &None), format!("prefix: {SECRET}"));
    assert_eq!(diagnostic("prefix: ", "text", &Some(String::new())), "prefix: text");
    assert_eq!(diagnostic("", "", &secret), "");
}

#[test]
fn diagnostic_withholds_a_text_that_holds_the_secret() {
    let secret = Some(SECRET.to_string());
    let text = format!("client_secret={SECRET} was wrong");
    assert_eq!(
        diagnostic("prefix: ", &text, &secret),
        "prefix: [withheld: the text held the client secret]"
    );
    let split = Some("x: s".to_string());
    assert_eq!(
        diagnostic("prefix: ", "secret", &split),
        "prefix: [withheld: the text held the client secret]"
    );
}

#[test]
fn provider_that_echoes_the_secret_is_not_quoted() {
    let body = format!(r#"{{"error":"incorrect_client_credentials","client_secret":"{SECRET}"}}"#);
    let step = flow().advance(Phase::Exchanging, answer(401, &body));
    let (kind, detail) = rejection(step.phase);
    assert_eq!(kind, ErrorKind::TokenExchange);
    assert_eq!(detail, "GitHub token API error: [withheld: the text held the client secret]");
    assert!(!detail.contains(SECRET));

    let step = flow().advance(
        Phase::FetchingIdentity,
        HttpOutcome::Failed { detail: format!("could not send {SECRET}") },
    );
    let (kind, detail) = rejection(step.phase);
    assert_eq!(kind, ErrorKind::IdentityFetch);
    assert_eq!(detail, "[withheld: the text held the client secret]");
}

// the decisions, given what the lookup found

#[test]
fn member_is_looked_up_only_in_answers_that_report_success() {
    let found = read_member(Stage::Exchange, &answer(200, r#"{"access_token":"abc123"}"#));
    assert!(matches!(found, JsonField::Text(t) if t == "abc123"));
    let found = read_member(Stage::Identity, &answer(200, r#"{"access_token":"abc123"}"#));
    assert!(matches!(found, JsonField::Absent));
    let found = read_member(Stage::Identity, &answer(200, r#"{"login":"octocat"}"#));
    assert!(matches!(found, JsonField::Text(t) if t == "octocat"));
    let found = read_member(Stage::Exchange, &answer(400, r#"{"access_token":"abc123"}"#));
    assert!(matches!(found, JsonField::NotJson));
    assert!(matches!(read_member(Stage::Exchange, &HttpOutcome::TimedOut), JsonField::NotJson));
    let unread = HttpOutcome::Response { status: 200, body: None };
    assert!(matches!(read_member(Stage::Exchange, &unread), JsonField::NotJson));
}

#[test]
fn answer_is_decided_from_what_the_lookup_found() {
    let text = read_answer(Stage::Exchange, answer(200, "{}"), JsonField::Text("tok".to_string()), &None);
    assert_eq!(text.expect("token"), "tok");
    let error = read_answer(Stage::Exchange, answer(200, "{}"), JsonField::Absent, &None).expect_err("absent");
    assert_eq!((error.kind, error.detail.as_str()), (ErrorKind::TokenExchange, "GitHub token API answer holds no access_token"));
    let error = read_answer(Stage::Identity, answer(200, "{}"), JsonField::NotJson, &None).expect_err("no json");
    assert_eq!((error.kind, error.detail.as_str()), (ErrorKind::IdentityFetch, "GitHub user API answer is not JSON"));
    let error = read_answer(Stage::Identity, answer(500, "down"), JsonField::Text("x".to_string()), &None)
        .expect_err("refused");
    assert_eq!((error.kind, error.detail.as_str()), (ErrorKind::IdentityFetch, "GitHub user API error: down"));
    let error = read_answer(Stage::Exchange, HttpOutcome::TimedOut, JsonField::Text("x".to_string()), &None)
        .expect_err("timed out");
    assert_eq!(error.kind, ErrorKind::NetworkTimeout);
}

#[test]
fn steps_after_each_answer_follow_the_lookup() {
    let flow = flow();
    let step = flow.after_exchange(answer(200, "ignored"), JsonField::Text("abc123".to_string()));
    assert!(matches!(step.phase, Phase::FetchingIdentity));
    let request = step.request.expect("profile request");
    assert_eq!(pairs(&request.headers)[1], ("Authorization", "Bearer abc123"));

    let step = flow.after_exchange(answer(200, "ignored"), JsonField::Absent);
    assert!(step.request.is_none());
    assert_eq!(rejection(step.phase).0, ErrorKind::TokenExchange);

    let step = flow.after_identity(answer(200, "ignored"), JsonField::Text("octocat".to_string()));
    assert!(step.request.is_none());
    match step.phase {
        Phase::Done(identity) => {
            assert_eq!(identity.username, "octocat");
            assert!(identity.email.is_none());
        }
        other => panic!("not done: {other:?}"),
    }

    let step = flow.after_identity(answer(403, "rate limited"), JsonField::NotJson);
    assert_eq!(
        rejection(step.phase),
        (ErrorKind::IdentityFetch, "GitHub user API error: rate limited".to_string())
    );
}

#[test]
fn request_over_plain_http_is_told_apart() {
    let request = HttpRequest {
        method: Method::Get,
        url: "http://api.github.com/user".to_string(),
        headers: vec![Field::new("User-Agent", "x")],
        form: Vec::new(),
        timeout_seconds: 30,
    };
    assert!(!request.uses_https());
}
