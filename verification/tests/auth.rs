use sctui::credentials::{authenticate, initial_token, resolve_initial_token, try_refresh_token, ApplicationCredentials, AuthError};
use sctui::firefox::{find_in_databases, firefox_profile_roots, profile_of_database};
use sctui::token::{authorization_header, Token, REFRESH_TIME};

fn application_token(value: &str) -> Token {
    Token::from_saved(value.to_string(), "refresh".to_string(), 1)
}

fn credentials() -> ApplicationCredentials {
    ApplicationCredentials { client_id: "client".into(), client_secret: "secret".into() }
}

#[test]
fn saved_token_has_first_precedence() {
    let token = resolve_initial_token(
        Some(application_token("saved")),
        Some(credentials()),
        |_| -> Result<Token, AuthError> { panic!("must not open OAuth browser") },
        || panic!("must not inspect Firefox"),
    )
    .unwrap();

    assert_eq!(token.access_token, "saved");
    assert!(token.is_refreshable());
}

#[test]
fn saved_token_without_application_credentials_does_not_start_refresh() {
    let token = resolve_initial_token(
        Some(application_token("saved")),
        None,
        |_| -> Result<Token, AuthError> { panic!("must not open OAuth browser") },
        || panic!("must not inspect Firefox"),
    )
    .unwrap();

    assert!(!token.is_refreshable());
}

#[test]
fn complete_application_credentials_precede_firefox() {
    let token = resolve_initial_token(
        None,
        Some(credentials()),
        |_| Ok(application_token("application")),
        || panic!("must not inspect Firefox"),
    )
    .unwrap();

    assert_eq!(token.access_token, "application");
}

#[test]
fn absent_application_credentials_fall_back_to_firefox() {
    let token = resolve_initial_token(
        None,
        None,
        |_| -> Result<Token, AuthError> { panic!("must not open OAuth browser") },
        || Some(Token::from_firefox("browser".into(), "profile".into())),
    )
    .unwrap();

    assert_eq!(token.access_token, "browser");
    assert_eq!(token.source_label(), "Firefox (profile)");
}

#[test]
fn missing_all_credentials_returns_actionable_error() {
    let error = resolve_initial_token(
        None,
        None,
        |_| -> Result<Token, AuthError> { panic!("must not open OAuth browser") },
        || None,
    )
    .unwrap_err();

    let message = error.message();
    assert!(message.contains("SOUNDCLOUD_CLIENT_ID"));
    assert!(message.contains("Firefox"));
}

#[test]
fn environment_inputs_are_classified_as_complete_absent_or_partial() {
    let complete = ApplicationCredentials::from_values(Some("client".into()), Some("secret".into()))
        .unwrap()
        .unwrap();
    assert_eq!(complete.client_id, "client");
    assert_eq!(complete.client_secret, "secret");

    for (client_id, client_secret) in [
        (None, None),
        (Some(String::new()), None),
        (None, Some(String::new())),
        (Some(String::new()), Some(String::new())),
    ] {
        assert!(ApplicationCredentials::from_values(client_id, client_secret).unwrap().is_none());
    }

    for (client_id, client_secret, missing) in [
        (Some("client".to_string()), None, "SOUNDCLOUD_CLIENT_SECRET"),
        (None, Some("secret".to_string()), "SOUNDCLOUD_CLIENT_ID"),
        (Some("client".to_string()), Some(String::new()), "SOUNDCLOUD_CLIENT_SECRET"),
        (Some(String::new()), Some("secret".to_string()), "SOUNDCLOUD_CLIENT_ID"),
    ] {
        let error = ApplicationCredentials::from_values(client_id, client_secret).unwrap_err();
        assert!(error.message().contains(missing));
    }
}

#[test]
fn soundcloud_authorization_uses_oauth_scheme() {
    let token = Token::from_saved("secret-access-token".into(), "refresh-token".into(), 42);

    assert_eq!(token.authorization_header(), "OAuth secret-access-token");
    assert_eq!(authorization_header("abc"), "OAuth abc");
}

#[test]
fn firefox_tokens_are_non_refreshable_and_do_not_expire_locally() {
    let token = Token::from_firefox("browser-token".into(), "default-release".into());

    assert!(!token.is_refreshable());
    assert!(!token.is_expired());
    assert_eq!(token.source_label(), "Firefox (default-release)");
}

#[test]
fn disabled_refresh_prevents_an_expired_application_token_from_refreshing() {
    let mut token = Token::from_saved("saved-token".into(), "refresh-token".into(), 100);

    assert!(token.should_refresh_at(100 + REFRESH_TIME + 1));
    token.disable_refresh();
    assert!(!token.should_refresh_at(100 + REFRESH_TIME + 1));
}

#[test]
fn expiry_starts_after_the_refresh_time() {
    let token = Token::from_saved("t".into(), "r".into(), 100);
    assert!(!token.is_expired_at(100 + REFRESH_TIME));
    assert!(token.is_expired_at(100 + REFRESH_TIME + 1));
    assert_eq!(token.source_label(), "SoundCloud OAuth");
}

#[test]
fn initial_token_rejects_partial_credentials_before_any_source() {
    let error = initial_token(
        Some(application_token("saved")),
        2,
        Some("client".into()),
        None,
        |_| -> Result<Token, AuthError> { panic!("must not authorize") },
        || panic!("must not inspect Firefox"),
    )
    .unwrap_err();
    assert!(matches!(error, AuthError::MissingClientSecret));
    assert_eq!(error.message(), "SOUNDCLOUD_CLIENT_SECRET is not set");
}

#[test]
fn initial_token_uses_the_complete_pair_for_the_application_flow() {
    let token = initial_token(
        None,
        2,
        Some("client".into()),
        Some("secret".into()),
        |c| {
            assert_eq!(c.client_id, "client");
            assert_eq!(c.client_secret, "secret");
            Ok(application_token("fresh"))
        },
        || panic!("must not inspect Firefox"),
    )
    .unwrap();
    assert_eq!(token.access_token, "fresh");
}

#[test]
fn authenticate_needs_application_credentials() {
    let error = authenticate(None, None, |_| -> Result<Token, AuthError> { panic!("must not authorize") }).unwrap_err();
    assert_eq!(error.message(), "SoundCloud application credentials are not set");
    let error = authenticate(None, Some("secret".into()), |_| -> Result<Token, AuthError> { panic!("must not authorize") }).unwrap_err();
    assert!(matches!(error, AuthError::MissingClientId));
    let token = authenticate(Some("id".into()), Some("secret".into()), |_| Ok(application_token("granted"))).unwrap();
    assert_eq!(token.access_token, "granted");
}

#[test]
fn refresh_replaces_only_an_expired_refreshable_token() {
    let mut token = Token::from_saved("old".into(), "refresh".into(), 100);
    try_refresh_token(&mut token, 100, |_| -> Result<Token, AuthError> { panic!("fresh token must not refresh") }).unwrap();
    assert_eq!(token.access_token, "old");

    try_refresh_token(&mut token, 100 + REFRESH_TIME + 1, |old| {
        assert_eq!(old.refresh_token, "refresh");
        Ok(Token::from_saved("new".into(), "refresh2".into(), 5000))
    })
    .unwrap();
    assert_eq!(token.access_token, "new");

    let mut expired = Token::from_saved("old".into(), "refresh".into(), 1);
    let error = try_refresh_token(&mut expired, 1 + REFRESH_TIME + 1, |_| Err(AuthError::Authorization("denied".into()))).unwrap_err();
    assert_eq!(error.message(), "denied");
    assert_eq!(expired.access_token, "old");
}

#[test]
fn profile_roots_classify_supported_operating_systems() {
    let home = "/home/me";
    let appdata = r"C:\Users\me\AppData\Roaming";

    assert_eq!(
        firefox_profile_roots("linux", Some(home), Some(appdata)),
        vec![
            "/home/me/.mozilla/firefox".to_string(),
            "/home/me/snap/firefox/common/.mozilla/firefox".to_string(),
            "/home/me/.var/app/org.mozilla.firefox/.mozilla/firefox".to_string(),
        ]
    );
    assert_eq!(
        firefox_profile_roots("macos", Some(home), Some(appdata)),
        vec!["/home/me/Library/Application Support/Firefox/Profiles".to_string()]
    );
    assert_eq!(
        firefox_profile_roots("windows", Some(home), Some(appdata)),
        vec![format!("{appdata}/Mozilla/Firefox/Profiles")]
    );
    assert!(firefox_profile_roots("windows", Some(home), None).is_empty());
}

#[test]
fn profile_names_come_from_the_database_directory() {
    assert_eq!(profile_of_database("/home/me/.mozilla/firefox/abc.default/cookies.sqlite").as_deref(), Some("abc.default"));
    assert_eq!(profile_of_database("/p/./b.signed-in//cookies.sqlite").as_deref(), Some("b.signed-in"));
    assert_eq!(profile_of_database("cookies.sqlite"), None);
    assert_eq!(profile_of_database("/a/../cookies.sqlite"), None);
}

#[test]
fn fallback_skips_databases_without_a_soundcloud_session() {
    let databases = vec![
        "/tmp/Profiles/a.empty/cookies.sqlite".to_string(),
        "/tmp/Profiles/b.signed-in/cookies.sqlite".to_string(),
    ];
    let token = find_in_databases(&databases, |db| {
        if db.contains("b.signed-in") { Some("browser-token".to_string()) } else { None }
    })
    .unwrap();
    assert_eq!(token.access_token, "browser-token");
    assert_eq!(token.source_label(), "Firefox (b.signed-in)");
    assert!(find_in_databases(&databases, |_| None).is_none());
}

#[test]
fn initial_token_sets_an_expired_saved_token_aside() {
    let token = initial_token(
        Some(application_token("stale")),
        1 + REFRESH_TIME + 1,
        None,
        None,
        |_| -> Result<Token, AuthError> { panic!("must not authorize") },
        || Some(Token::from_firefox("browser".into(), "profile".into())),
    )
    .unwrap();
    assert_eq!(token.access_token, "browser");
    let token = initial_token(
        Some(application_token("kept")),
        1 + REFRESH_TIME,
        None,
        None,
        |_| -> Result<Token, AuthError> { panic!("must not authorize") },
        || panic!("must not inspect Firefox"),
    )
    .unwrap();
    assert_eq!(token.access_token, "kept");
}
