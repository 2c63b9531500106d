use binchotan::auth::{
    check_callback, first_value, read_callback, Auth, AuthAction, AuthEvent, AuthState,
    SUCCESS_PAGE,
};
use binchotan::error::{AppError, OAuthFailure};

fn auth() -> Auth {
    Auth::new(
        "client".to_string(),
        "secret".to_string(),
        vec!["tweet.read".to_string(), "users.read".to_string()],
        "cache.json".to_string(),
    )
}

fn waiting(state: &str) -> AuthState {
    AuthState::AwaitingCallback { state: state.to_string(), verifier: "v".repeat(43) }
}

fn callback(url: &str) -> AuthEvent {
    AuthEvent::Callback { request_url: url.to_string() }
}

#[test]
fn new_keeps_what_it_is_given() {
    let a = auth();
    assert_eq!(a.client_id(), "client");
    assert_eq!(a.client_secret(), "secret");
    assert_eq!(a.scopes(), &vec!["tweet.read".to_string(), "users.read".to_string()]);
    assert_eq!(a.cache_path(), "cache.json");
}

#[test]
fn authorization_builds_the_address_with_state_and_challenge() {
    let (next, url) = auth().authorization("xyz".to_string(), "A".repeat(43)).unwrap();
    assert_eq!(
        url,
        "https://twitter.com/i/oauth2/authorize?response_type=code&client_id=client&state=xyz\
&code_challenge=DwBzhbb51LfusnSGBa_hqYSgo7-j8BTQnip4TOnlzRo&code_challenge_method=S256\
&redirect_uri=http%3A%2F%2Flocalhost%3A31337&scope=tweet.read+users.read"
    );
    match next {
        AuthState::AwaitingCallback { state, verifier } => {
            assert_eq!(state, "xyz");
            assert_eq!(verifier, "A".repeat(43));
        }
        other => panic!("unexpected {:?}", other),
    }
}

#[test]
fn authorization_refuses_a_verifier_of_the_wrong_length() {
    for n in [0usize, 42, 129] {
        match auth().authorization("s".to_string(), "A".repeat(n)) {
            Err(AppError::OAuth(OAuthFailure::Verifier)) => {}
            other => panic!("unexpected {:?}", other),
        }
    }
    assert!(auth().authorization("s".to_string(), "A".repeat(128)).is_ok());
    // 22 two-byte characters are 44 bytes: the length is counted in bytes
    assert!(auth().authorization("s".to_string(), "é".repeat(22)).is_ok());
    assert!(auth().authorization("s".to_string(), "é".repeat(21)).is_err());
}

#[test]
fn begin_draws_a_fresh_state_and_verifier() {
    let (first, first_url) = auth().begin().unwrap();
    let (second, second_url) = auth().begin().unwrap();
    let (s1, v1) = match first {
        AuthState::AwaitingCallback { state, verifier } => (state, verifier),
        other => panic!("unexpected {:?}", other),
    };
    let (s2, v2) = match second {
        AuthState::AwaitingCallback { state, verifier } => (state, verifier),
        other => panic!("unexpected {:?}", other),
    };
    assert_eq!(v1.len(), 43);
    assert_ne!(s1, s2);
    assert_ne!(v1, v2);
    assert!(first_url.contains(&format!("state={}", s1)));
    assert!(second_url.contains(&format!("state={}", s2)));
    let (_, again) = auth().authorization(s1, v1).unwrap();
    assert_eq!(again, first_url);
}

#[test]
fn matching_callback_hands_out_the_code() {
    let (next, action) =
        auth().generate_tokens(waiting("xyz"), callback("/?code=abc123&state=xyz"));
    assert!(matches!(next, AuthState::AwaitingTokens));
    match action {
        AuthAction::Exchange { code, verifier } => {
            assert_eq!(code, "abc123");
            assert_eq!(verifier, "v".repeat(43));
        }
        other => panic!("unexpected {:?}", other),
    }
}

#[test]
fn callback_values_are_percent_decoded() {
    let (_, action) =
        auth().generate_tokens(waiting("x y/z"), callback("/?state=x+y%2Fz&code=a%20b"));
    match action {
        AuthAction::Exchange { code, .. } => assert_eq!(code, "a b"),
        other => panic!("unexpected {:?}", other),
    }
}

#[test]
fn csrf_state_that_differs_by_one_character_ends_the_flow_before_any_exchange() {
    for returned in ["xyZ", "xy", "xyzz", "", "Xyz", "xyz%20"] {
        let url = format!("/?code=abc123&state={}", returned);
        let (next, action) = auth().generate_tokens(waiting("xyz"), callback(&url));
        assert!(matches!(next, AuthState::Finished));
        match action {
            AuthAction::Fail(AppError::OAuth(OAuthFailure::InvalidState)) => {}
            other => panic!("unexpected {:?}", other),
        }
        // the flow is over: tokens that arrive now are not accepted
        let (after, late) = auth().generate_tokens(
            next,
            AuthEvent::Exchanged { access_token: "a".to_string(), refresh_token: None },
        );
        assert!(matches!(after, AuthState::Finished));
        assert!(matches!(late, AuthAction::Fail(AppError::OAuth(OAuthFailure::Unexpected))));
    }
}

#[test]
fn callback_without_code_fails_for_the_code() {
    for url in ["/?state=xyz", "/", "", "/?state=wrong", "/?Code=a&state=xyz"] {
        let (next, action) = auth().generate_tokens(waiting("xyz"), callback(url));
        assert!(matches!(next, AuthState::Finished));
        match action {
            AuthAction::Fail(e @ AppError::OAuth(OAuthFailure::MissingCode)) => {
                assert_eq!(
                    e.message(),
                    "authorization failed: no authorization code was returned"
                );
            }
            other => panic!("unexpected {:?}", other),
        }
    }
}

#[test]
fn callback_without_state_fails_for_the_state() {
    let (next, action) = auth().generate_tokens(waiting("xyz"), callback("/?code=abc"));
    assert!(matches!(next, AuthState::Finished));
    match action {
        AuthAction::Fail(e @ AppError::OAuth(OAuthFailure::MissingState)) => {
            assert_eq!(e.message(), "authorization failed: no state was returned");
        }
        other => panic!("unexpected {:?}", other),
    }
}

#[test]
fn first_code_and_state_count() {
    let (_, action) = auth()
        .generate_tokens(waiting("xyz"), callback("/?code=first&code=second&state=xyz&state=no"));
    match action {
        AuthAction::Exchange { code, .. } => assert_eq!(code, "first"),
        other => panic!("unexpected {:?}", other),
    }
}

#[test]
fn tokens_without_refresh_token_yield_the_empty_string() {
    let (next, action) = auth().generate_tokens(
        AuthState::AwaitingTokens,
        AuthEvent::Exchanged { access_token: "access".to_string(), refresh_token: None },
    );
    assert!(matches!(next, AuthState::Finished));
    match action {
        AuthAction::Succeed { access_token, refresh_token, page } => {
            assert_eq!(access_token, "access");
            assert_eq!(refresh_token, "");
            assert_eq!(page, SUCCESS_PAGE);
            assert_eq!(page, "Authentication succeeded! Now you can safely close this page.");
        }
        other => panic!("unexpected {:?}", other),
    }
}

#[test]
fn tokens_with_refresh_token_yield_both() {
    let (_, action) = auth().generate_tokens(
        AuthState::AwaitingTokens,
        AuthEvent::Exchanged {
            access_token: "access".to_string(),
            refresh_token: Some("refresh".to_string()),
        },
    );
    match action {
        AuthAction::Succeed { access_token, refresh_token, .. } => {
            assert_eq!((access_token.as_str(), refresh_token.as_str()), ("access", "refresh"));
        }
        other => panic!("unexpected {:?}", other),
    }
}

#[test]
fn failed_exchange_ends_the_flow() {
    let (next, action) = auth().generate_tokens(
        AuthState::AwaitingTokens,
        AuthEvent::ExchangeFailed { detail: "invalid_grant".to_string() },
    );
    assert!(matches!(next, AuthState::Finished));
    match action {
        AuthAction::Fail(AppError::OAuth(OAuthFailure::Exchange(detail))) => {
            assert_eq!(detail, "invalid_grant")
        }
        other => panic!("unexpected {:?}", other),
    }
}

#[test]
fn events_out_of_turn_end_the_flow() {
    let cases: Vec<(AuthState, AuthEvent)> = vec![
        (
            waiting("xyz"),
            AuthEvent::Exchanged { access_token: "a".to_string(), refresh_token: None },
        ),
        (waiting("xyz"), AuthEvent::ExchangeFailed { detail: "d".to_string() }),
        (AuthState::AwaitingTokens, callback("/?code=a&state=xyz")),
        (AuthState::Finished, callback("/?code=a&state=xyz")),
        (AuthState::Finished, AuthEvent::ExchangeFailed { detail: "d".to_string() }),
    ];
    for (state, event) in cases {
        let (next, action) = auth().generate_tokens(state, event);
        assert!(matches!(next, AuthState::Finished));
        assert!(matches!(action, AuthAction::Fail(AppError::OAuth(OAuthFailure::Unexpected))));
    }
}

#[test]
fn check_callback_compares_the_state_exactly() {
    let pairs = vec![
        ("state".to_string(), "s3cr3t".to_string()),
        ("code".to_string(), "c0de".to_string()),
    ];
    assert_eq!(check_callback("s3cr3t", &pairs).unwrap(), "c0de");
    assert!(matches!(
        check_callback("s3cr3T", &pairs),
        Err(AppError::OAuth(OAuthFailure::InvalidState))
    ));
    assert!(matches!(
        check_callback("s3cr3t", &vec![]),
        Err(AppError::OAuth(OAuthFailure::MissingCode))
    ));
    assert_eq!(first_value(&pairs, "code"), Some(&"c0de".to_string()));
    assert_eq!(first_value(&pairs, "cod"), None);
}

#[test]
fn pasted_address_is_checked_like_the_callback() {
    let pasted = |address: &str| AuthEvent::Redirected { address: address.to_string() };
    let (next, action) = auth()
        .generate_tokens(waiting("xyz"), pasted("https://localhost/?state=xyz&code=abc#frag"));
    assert!(matches!(next, AuthState::AwaitingTokens));
    assert!(matches!(action, AuthAction::Exchange { code, .. } if code == "abc"));

    let (next, action) =
        auth().generate_tokens(waiting("xyz"), pasted("https://localhost/?state=xyy&code=abc"));
    assert!(matches!(next, AuthState::Finished));
    assert!(matches!(action, AuthAction::Fail(AppError::OAuth(OAuthFailure::InvalidState))));

    let (_, action) = auth().generate_tokens(AuthState::AwaitingTokens, pasted("https://x/"));
    assert!(matches!(action, AuthAction::Fail(AppError::OAuth(OAuthFailure::Unexpected))));
}

#[test]
fn address_that_is_no_url_is_a_url_failure() {
    for address in ["", "not a url", "/?code=a&state=xyz", "http://"] {
        let (next, action) = auth().generate_tokens(
            waiting("xyz"),
            AuthEvent::Redirected { address: address.to_string() },
        );
        assert!(matches!(next, AuthState::Finished));
        match action {
            AuthAction::Fail(e @ AppError::OAuthUrlParse(_)) => {
                assert_eq!(e.code(), -32000);
                assert!(e.message().starts_with("unreadable callback address: "));
            }
            other => panic!("unexpected {:?} for {:?}", other, address),
        }
    }
}

#[test]
fn read_callback_yields_the_code_of_a_matching_address() {
    assert_eq!(read_callback("s", "http://localhost:31337//?code=c&state=s").unwrap(), "c");
    assert!(matches!(
        read_callback("s", "http://localhost:31337//?code=c&state=t"),
        Err(AppError::OAuth(OAuthFailure::InvalidState))
    ));
    assert!(matches!(
        read_callback("s", "http://localhost:31337/"),
        Err(AppError::OAuth(OAuthFailure::MissingCode))
    ));
    assert!(matches!(read_callback("s", "::"), Err(AppError::OAuthUrlParse(_))));
}
