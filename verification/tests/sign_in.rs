use sctui::oauth::{
    authorization_code_form, authorize_url, callback_reply, generate_code_challenge, generate_code_verifier,
    generate_state, refresh_token_form, CallbackReply, CODE_VERIFIER_LEN, STATE_LEN,
};
use sctui::token::{Token, REFRESH_BUFFER, REFRESH_TIME};

fn pairs(v: &[(&str, &str)]) -> Vec<(String, String)> {
    v.iter().map(|(k, v)| (k.to_string(), v.to_string())).collect()
}

#[test]
fn code_challenge_is_the_unpadded_url_safe_sha256_of_the_verifier() {
    assert_eq!(
        generate_code_challenge("dBjftJeZ4CVP-mB92K27uhbUJU1p1r_wW1gFWFOEjXk"),
        "E9Melhoa2OwvFrEMTJguCHaoeK1t8URWbuGJSstw-cM"
    );
}

#[test]
fn verifier_and_state_are_fresh_alphanumeric_texts() {
    let verifier = generate_code_verifier();
    let state = generate_state();
    assert_eq!(verifier.chars().count(), CODE_VERIFIER_LEN);
    assert_eq!(state.chars().count(), STATE_LEN);
    assert!(verifier.chars().chain(state.chars()).all(|c| c.is_ascii_alphanumeric()));
    assert_ne!(generate_state(), state);
}

#[test]
fn authorization_page_carries_the_challenge_and_state() {
    assert_eq!(
        authorize_url("client", "challenge", "state"),
        "https://secure.soundcloud.com/authorize?client_id=client&redirect_uri=http://127.0.0.1:8080/callback&response_type=code&code_challenge=challenge&code_challenge_method=S256&state=state"
    );
}

#[test]
fn only_the_callback_with_the_sent_state_authorizes() {
    let ok = callback_reply("/callback?code=abc&state=xyz", "xyz");
    assert_eq!(ok, CallbackReply::Authorized("abc".into()));
    assert_eq!(ok.response(), Some((200, "Authentication successful! You can close this window.".to_string())));
    assert_eq!(ok.failure(), None);

    let forged = callback_reply("/callback?code=abc&state=other", "xyz");
    assert_eq!(forged, CallbackReply::StateMismatch);
    assert_eq!(forged.response(), Some((400, "Invalid state parameter".to_string())));
    assert_eq!(forged.failure(), Some("CSRF state mismatch".to_string()));

    let missing = callback_reply("/callback?code=abc", "xyz");
    assert_eq!(missing, CallbackReply::MissingParameters);
    assert_eq!(missing.response(), Some((400, "Missing code or state".to_string())));
    assert_eq!(missing.failure(), Some("Missing code or state in callback".to_string()));

    let other = callback_reply("/favicon.ico", "xyz");
    assert_eq!(other, CallbackReply::NotFound);
    assert_eq!(other.response(), Some((404, "Not found".to_string())));
    assert_eq!(other.failure(), None);

    assert_eq!(callback_reply("/callback?state=xyz&code=a%2Fb&code=second", "xyz"), CallbackReply::Authorized("a/b".into()));
}

#[test]
fn token_forms_list_every_parameter_in_order() {
    assert_eq!(
        authorization_code_form("id", "secret", "code", "verifier"),
        pairs(&[
            ("client_id", "id"),
            ("client_secret", "secret"),
            ("redirect_uri", "http://127.0.0.1:8080/callback"),
            ("grant_type", "authorization_code"),
            ("code", "code"),
            ("code_verifier", "verifier"),
        ])
    );
    assert_eq!(
        refresh_token_form("id", "secret", "refresh"),
        pairs(&[("grant_type", "refresh_token"), ("client_id", "id"), ("client_secret", "secret"), ("refresh_token", "refresh")])
    );
}

#[test]
fn background_refresh_looks_ahead_of_expiry() {
    let token = Token::from_saved("access".into(), "refresh".into(), 1_000);
    let expiry = 1_000 + REFRESH_TIME;
    assert!(!token.refresh_due(expiry - REFRESH_BUFFER));
    assert!(token.refresh_due(expiry - REFRESH_BUFFER + 1));
    assert!(!token.should_refresh_at(expiry - REFRESH_BUFFER + 1));
    assert!(token.refresh_due(u64::MAX));
}
