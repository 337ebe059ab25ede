use better_spotify::auth::{
    begin_login, kept_refresh_token, refresh_authorization, refresh_token_to_send, refreshed_user, ApiRetry,
    AuthenticatedUser, CallbackAction, CallbackFlow, RetryStep, TokenOutcome,
};
use better_spotify::models::{SpotifyTokenResponse, SpotifyUserProfile};
use better_spotify::pkce::{generate_code_challenge, generate_code_verifier, generate_state};
use better_spotify::session::VerifierStore;

fn user(refresh: Option<&str>) -> AuthenticatedUser {
    AuthenticatedUser {
        spotify_id: "me".to_string(),
        access_token: "old-access".to_string(),
        refresh_token: refresh.map(|s| s.to_string()),
    }
}

#[test]
fn code_verifier_is_128_alphanumerics() {
    let v = generate_code_verifier();
    assert_eq!(v.chars().count(), 128);
    assert!(v.chars().all(|c| c.is_ascii_alphanumeric()));
    let s = generate_state();
    assert_eq!(s.chars().count(), 16);
    assert!(s.chars().all(|c| c.is_ascii_alphanumeric()));
}

#[test]
fn code_challenge_matches_the_rfc_example() {
    assert_eq!(
        generate_code_challenge("dBjftJeZ4CVP-mB92K27uhbUJU1p1r_wW1gFWFOEjXk"),
        "E9Melhoa2OwvFrEMTJguCHaoeK1t8URWbuGJSstw-cM"
    );
    assert_eq!(generate_code_challenge("").len(), 43);
    for v in ["", "abc", generate_code_verifier().as_str()] {
        let c = generate_code_challenge(v);
        assert!(c.chars().all(|ch| ch.is_ascii_alphanumeric() || ch == '-' || ch == '_'));
    }
}

#[test]
fn retry_refreshes_once_after_401() {
    let mut r = ApiRetry::new();
    assert!(matches!(r.on_error(401, "expired"), RetryStep::RefreshAndRetry));
    match r.on_error(401, "expired again") {
        RetryStep::Fail(m) => assert_eq!(m, "Spotify API Error (401): expired again"),
        _ => panic!("second 401 must fail"),
    }
}

#[test]
fn retry_gives_up_on_other_statuses() {
    let mut r = ApiRetry::new();
    match r.on_error(500, "Network Error: boom") {
        RetryStep::Fail(m) => assert_eq!(m, "Spotify API Error (500): Network Error: boom"),
        _ => panic!("500 must fail"),
    }
    assert!(matches!(r.on_error(401, "x"), RetryStep::RefreshAndRetry));
}

#[test]
fn refresh_needs_a_refresh_token() {
    assert_eq!(refresh_token_to_send(&user(Some("r1"))), Ok("r1".to_string()));
    assert_eq!(refresh_token_to_send(&user(None)), Err("No refresh token available".to_string()));
}

#[test]
fn refresh_keeps_old_token_unless_a_new_one_came() {
    assert_eq!(kept_refresh_token(&None, &"old".to_string()), "old");
    assert_eq!(kept_refresh_token(&Some("new".to_string()), &"old".to_string()), "new");
    let u = refreshed_user(&user(Some("old")), &"old".to_string(), "fresh".to_string(), &None);
    assert_eq!(u.spotify_id, "me");
    assert_eq!(u.access_token, "fresh");
    assert_eq!(u.refresh_token, Some("old".to_string()));
}

#[test]
fn refresh_authorization_is_basic_standard_base64() {
    assert_eq!(refresh_authorization("id", "secret"), "Basic aWQ6c2VjcmV0");
    assert_eq!(refresh_authorization("a", "b"), "Basic YTpi");
}

#[test]
fn login_remembers_the_verifier_under_the_state() {
    let mut store = VerifierStore::new();
    let start = begin_login(&mut store, "client", "http://localhost/callback");
    let url = start.url.expect("fixed endpoint parses");
    assert!(url.starts_with("https://accounts.spotify.com/authorize?response_type=code&client_id=client&scope=playlist-read-private"));
    assert!(url.contains(&format!("&state={}&", start.state)));
    assert!(url.contains("code_challenge_method=S256"));
    assert!(url.contains("redirect_uri=http%3A%2F%2Flocalhost%2Fcallback"));
    let verifier = store.take(&start.state).expect("verifier stored");
    let challenge = generate_code_challenge(&verifier);
    assert!(url.ends_with(&format!("&code_challenge={}", challenge)));
    assert_eq!(store.take(&start.state), None);
}

fn redirect_of(a: CallbackAction) -> String {
    match a {
        CallbackAction::Redirect(p) => p,
        _ => panic!("expected a redirect"),
    }
}

#[test]
fn callback_refuses_missing_code_and_state() {
    let mut store = VerifierStore::new();
    store.put("s".to_string(), "v".to_string());
    let (_, a) = CallbackFlow::start(&mut store, None, Some("s".to_string()), "id", "secret", "uri");
    assert_eq!(redirect_of(a), "/login?error=missing_code");
    let (_, a) = CallbackFlow::start(&mut store, Some("c".to_string()), None, "id", "secret", "uri");
    assert_eq!(redirect_of(a), "/login?error=missing_state");
    assert_eq!(store.take("s"), Some("v".to_string()));
}

#[test]
fn callback_refuses_unknown_or_reused_state() {
    let mut store = VerifierStore::new();
    store.put("s".to_string(), "v".to_string());
    let (_, a) = CallbackFlow::start(&mut store, Some("c".to_string()), Some("other".to_string()), "id", "secret", "uri");
    assert_eq!(redirect_of(a), "/login?error=state_mismatch");
    let (_, a) = CallbackFlow::start(&mut store, Some("c".to_string()), Some("s".to_string()), "id", "secret", "uri");
    assert!(matches!(a, CallbackAction::RequestToken { .. }));
    let (_, a) = CallbackFlow::start(&mut store, Some("c".to_string()), Some("s".to_string()), "id", "secret", "uri");
    assert_eq!(redirect_of(a), "/login?error=state_mismatch");
}

#[test]
fn callback_exchanges_code_with_verifier() {
    let mut store = VerifierStore::new();
    store.put("s".to_string(), "verif".to_string());
    let (mut flow, a) = CallbackFlow::start(&mut store, Some("code1".to_string()), Some("s".to_string()), "id", "secret", "http://x/cb");
    match a {
        CallbackAction::RequestToken { form, authorization } => {
            let expected: Vec<(String, String)> = vec![
                ("grant_type", "authorization_code"),
                ("code", "code1"),
                ("redirect_uri", "http://x/cb"),
                ("client_id", "id"),
                ("code_verifier", "verif"),
            ]
            .into_iter()
            .map(|(k, v)| (k.to_string(), v.to_string()))
            .collect();
            assert_eq!(form, expected);
            assert_eq!(authorization, "Basic aWQ6c2VjcmV0");
        }
        _ => panic!("expected token request"),
    }
    assert_eq!(redirect_of(flow.on_token(TokenOutcome::NetworkError)), "/login?error=network_error");
    assert_eq!(redirect_of(flow.on_token(TokenOutcome::Rejected)), "/login?error=token_request_failed");
    assert_eq!(redirect_of(flow.on_token(TokenOutcome::Unparsable)), "/login?error=token_parse_failed");
    let tokens = SpotifyTokenResponse {
        access_token: "acc".to_string(),
        token_type: "Bearer".to_string(),
        scope: "x".to_string(),
        expires_in: 3600,
        refresh_token: None,
    };
    match flow.on_token(TokenOutcome::Tokens(tokens)) {
        CallbackAction::FetchProfile { access_token } => assert_eq!(access_token, "acc"),
        _ => panic!("expected profile fetch"),
    }
    assert_eq!(redirect_of(flow.on_profile(None)), "/login?error=profile_fetch_failed");
    let profile = SpotifyUserProfile { display_name: "Me".to_string(), id: "uid".to_string(), images: None };
    match flow.on_profile(Some(profile)) {
        CallbackAction::SaveUser { spotify_id, display_name, access_token, refresh_token } => {
            assert_eq!(spotify_id, "uid");
            assert_eq!(display_name, "Me");
            assert_eq!(access_token, "acc");
            assert_eq!(refresh_token, "");
        }
        _ => panic!("expected user save"),
    }
    assert_eq!(redirect_of(flow.on_user_saved(false)), "/login?error=db_error");
    match flow.on_user_saved(true) {
        CallbackAction::CreateSession { spotify_id } => assert_eq!(spotify_id, "uid"),
        _ => panic!("expected session"),
    }
    assert_eq!(redirect_of(flow.on_session_saved(false, "sid".to_string())), "/login?error=db_error");
    match flow.on_session_saved(true, "sid".to_string()) {
        CallbackAction::SetSessionCookie { session_id } => assert_eq!(session_id, "sid"),
        _ => panic!("expected cookie"),
    }
}

#[test]
fn a_state_is_redeemed_once() {
    let mut store = VerifierStore::new();
    let login = begin_login(&mut store, "client", "https://app/callback");
    let first = CallbackFlow::redeem(&mut store, Some("code".to_string()), Some(login.state.clone()));
    let (code, verifier) = first.unwrap();
    assert_eq!(code, "code");
    assert_eq!(verifier.len(), 128);
    let second = CallbackFlow::redeem(&mut store, Some("code".to_string()), Some(login.state.clone()));
    assert_eq!(second.unwrap_err(), "/login?error=state_mismatch");
    assert_eq!(
        CallbackFlow::redeem(&mut store, None, Some(login.state)).unwrap_err(),
        "/login?error=missing_code"
    );
    assert_eq!(
        CallbackFlow::redeem(&mut store, Some("c".to_string()), None).unwrap_err(),
        "/login?error=missing_state"
    );
}
