use spotitui::callback::{
    callback_step, code_value, extract_code_from_request, line_length, request_query,
    CallbackEvent, CallbackStep, CALLBACK_TIMEOUT_SECS, LISTEN_ADDRESS, SETTLE_DELAY_MS,
    SUCCESS_RESPONSE,
};
use spotitui::error::ApiError;
use spotitui::pkce::{
    authorization_url, generate_code_challenge, generate_code_verifier, generate_state, hex_digit,
    verifier_char, AuthorizationAttempt, REDIRECT_URI, SCOPE, STATE_LEN, VERIFIER_LEN,
};
use spotitui::request::{Body, Method};
use spotitui::spotify::{SpotifyClient, TokenPair, TOKEN_URL};

fn unreserved(c: char) -> bool {
    c.is_ascii_alphanumeric() || c == '-' || c == '.' || c == '_' || c == '~'
}

#[test]
fn redirect_to_root_with_state_and_code_yields_the_code() {
    let request = "GET /?state=xyz&code=ABC123 HTTP/1.1";
    assert_eq!(extract_code_from_request(request), Some("ABC123".to_string()));
    let step = callback_step(&CallbackEvent::Request(request.to_string()));
    assert_eq!(step, CallbackStep::Respond("ABC123".to_string()));
    assert!(SUCCESS_RESPONSE.starts_with("HTTP/1.1 200 OK\r\n"));
    assert!(SUCCESS_RESPONSE.contains("Content-Type: text/html"));
    assert!(SUCCESS_RESPONSE.contains("<html>"));
    let client = SpotifyClient::new("cid".to_string(), "secret".to_string());
    let exchange = client.exchange_code_for_token("ABC123", "verifier", REDIRECT_URI);
    assert_eq!(exchange.method, Method::Post);
    assert_eq!(exchange.url, TOKEN_URL);
}

#[test]
fn no_redirect_in_time_is_an_auth_timeout() {
    assert_eq!(callback_step(&CallbackEvent::TimedOut), CallbackStep::Fail(ApiError::AuthTimeout));
    assert_eq!(CALLBACK_TIMEOUT_SECS, 60);
    assert_eq!(SETTLE_DELAY_MS, 100);
}

#[test]
fn bind_failure_ends_the_attempt() {
    assert_eq!(callback_step(&CallbackEvent::BindFailed), CallbackStep::Fail(ApiError::ListenerBindFailed));
    assert_eq!(LISTEN_ADDRESS, "127.0.0.1:8888");
    assert!(REDIRECT_URI.starts_with("http://127.0.0.1:8888/"));
}

#[test]
fn other_requests_and_broken_connections_keep_the_listener_waiting() {
    assert_eq!(callback_step(&CallbackEvent::ConnectionFailed), CallbackStep::Listen);
    for request in [
        "GET /favicon.ico HTTP/1.1\r\n\r\n",
        "GET /callback?error=access_denied&state=xyz HTTP/1.1\r\n\r\n",
        "POST /callback?code=abc HTTP/1.1\r\n\r\n",
        "POST /x HTTP/1.1\r\nX-Note: GET /?code=evil HTTP/1.1\r\n\r\n",
        "GET /other?code=abc HTTP/1.1\r\n\r\n",
        "GET /callback?code=abc",
        "",
    ] {
        assert_eq!(callback_step(&CallbackEvent::Request(request.to_string())), CallbackStep::Listen);
    }
}

#[test]
fn code_is_read_from_the_callback_path() {
    let request = "GET /callback?code=AQB_x-y.z&state=0123456789abcdef HTTP/1.1\r\nHost: 127.0.0.1:8888\r\n\r\n";
    assert_eq!(extract_code_from_request(request), Some("AQB_x-y.z".to_string()));
}

#[test]
fn code_is_decoded_as_a_form_value() {
    assert_eq!(extract_code_from_request("GET /callback?code=a%2Fb+c%3D HTTP/1.1"), Some("a/b c=".to_string()));
    assert_eq!(extract_code_from_request("GET /?x=1&code=&code=later HTTP/1.1"), Some(String::new()));
    assert_eq!(extract_code_from_request("GET /?code=abc#frag HTTP/1.1"), Some("abc".to_string()));
    assert_eq!(extract_code_from_request("GET /?codex=abc HTTP/1.1"), None);
}

#[test]
fn code_in_a_header_is_not_taken() {
    let post = "POST /x HTTP/1.1\r\nX-Note: GET /?code=evil HTTP/1.1\r\n\r\n";
    assert_eq!(extract_code_from_request(post), None);
    assert_eq!(callback_step(&CallbackEvent::Request(post.to_string())), CallbackStep::Listen);
    let other_path = "GET /favicon.ico HTTP/1.1\r\nReferer: GET /callback?code=evil HTTP/1.1\r\n\r\n";
    assert_eq!(extract_code_from_request(other_path), None);
    let no_code = "GET /callback?state=1 HTTP/1.1\r\nX: GET /?code=evil HTTP/1.1\r\n\r\n";
    assert_eq!(extract_code_from_request(no_code), None);
    let body = "PUT / HTTP/1.1\nGET /?code=e HTTP/1.1";
    assert_eq!(extract_code_from_request(body), None);
}

#[test]
fn request_line_decides_and_the_rest_is_ignored() {
    let request = "GET /?code=mine HTTP/1.1\r\nX: GET /callback?code=other HTTP/1.1\r\n\r\n";
    assert_eq!(extract_code_from_request(request), Some("mine".to_string()));
    let callback = "GET /callback?code=mine HTTP/1.1\nX: GET /?code=other HTTP/1.1\n\n";
    assert_eq!(extract_code_from_request(callback), Some("mine".to_string()));
}

#[test]
fn pattern_must_open_the_request_line() {
    assert_eq!(extract_code_from_request(" GET /?code=abc HTTP/1.1"), None);
    assert_eq!(extract_code_from_request("XGET /?code=abc HTTP/1.1"), None);
    assert_eq!(extract_code_from_request("\r\nGET /?code=abc HTTP/1.1"), None);
    assert_eq!(extract_code_from_request("\nGET /callback?code=abc HTTP/1.1"), None);
    assert_eq!(extract_code_from_request("get /?code=abc HTTP/1.1"), None);
    assert_eq!(extract_code_from_request("GET /callback/?code=abc HTTP/1.1"), None);
    assert_eq!(extract_code_from_request("GET /"), None);
    assert_eq!(extract_code_from_request("GET /?"), None);
}

#[test]
fn query_ends_at_a_space_of_the_request_line() {
    assert_eq!(extract_code_from_request("GET /?code=abc\r\nHost: a b\r\n"), None);
    assert_eq!(extract_code_from_request("GET /callback?code=abc\nX: y z"), None);
    assert_eq!(extract_code_from_request("GET /?code=abc \r\n"), Some("abc".to_string()));
    assert_eq!(extract_code_from_request("GET /?code=abc x=1&code=2 HTTP/1.1"), Some("abc".to_string()));
    assert_eq!(extract_code_from_request("GET /? HTTP/1.1"), None);
}

#[test]
fn query_is_cut_out_of_the_request_line() {
    assert_eq!(request_query("GET /?state=xyz&code=ABC123 HTTP/1.1\r\n\r\n"), Some("state=xyz&code=ABC123".to_string()));
    assert_eq!(request_query("GET /callback?a=1 HTTP/1.1"), Some("a=1".to_string()));
    assert_eq!(request_query("GET /? HTTP/1.1"), Some(String::new()));
    assert_eq!(request_query("GET /callback?a=1"), None);
    assert_eq!(request_query("POST /?a=1 HTTP/1.1"), None);
    assert_eq!(request_query("HEAD /\r\nGET /?a=1 HTTP/1.1"), None);
    assert_eq!(request_query(""), None);
}

#[test]
fn first_line_ends_at_the_first_line_break() {
    let chars = |text: &str| text.chars().collect::<Vec<char>>();
    assert_eq!(line_length(&chars("GET / HTTP/1.1\r\nHost: x")), 14);
    assert_eq!(line_length(&chars("ab\ncd\r")), 2);
    assert_eq!(line_length(&chars("ab\rcd\n")), 2);
    assert_eq!(line_length(&chars("\n")), 0);
    assert_eq!(line_length(&chars("abc")), 3);
    assert_eq!(line_length(&chars("")), 0);
    assert_eq!(line_length(&chars("h\u{e9}llo\n")), 5);
}

#[test]
fn first_pair_named_code_wins() {
    let pairs = vec![
        ("state".to_string(), "s".to_string()),
        ("code".to_string(), "one".to_string()),
        ("code".to_string(), "two".to_string()),
    ];
    assert_eq!(code_value(&pairs), Some("one".to_string()));
    assert_eq!(code_value(&vec![("Code".to_string(), "x".to_string())]), None);
    assert_eq!(code_value(&vec![]), None);
}

#[test]
fn non_ascii_requests_are_cut_at_characters() {
    let request = "GET /?x=\u{e9}\u{e9}&code=\u{e9}t\u{e9} HTTP/1.1\r\n\u{e9}: GET /?code=no HTTP/1.1";
    assert_eq!(extract_code_from_request(request), Some("\u{e9}t\u{e9}".to_string()));
    assert_eq!(request_query(request), Some("x=\u{e9}\u{e9}&code=\u{e9}t\u{e9}".to_string()));
    assert_eq!(extract_code_from_request("\u{e9}\u{e9} GET /?code=abc HTTP/1.1"), None);
}

#[test]
fn verifier_has_128_unreserved_characters() {
    let verifier = generate_code_verifier();
    assert_eq!(VERIFIER_LEN, 128);
    assert_eq!(verifier.chars().count(), 128);
    assert!(verifier.chars().all(unreserved));
    assert_ne!(verifier, generate_code_verifier());
}

#[test]
fn verifier_alphabet_is_letters_digits_and_four_marks() {
    let alphabet: String = (0..66).map(verifier_char).collect();
    assert_eq!(alphabet, "ABCDEFGHIJKLMNOPQRSTUVWXYZabcdefghijklmnopqrstuvwxyz0123456789-._~");
}

#[test]
fn state_has_16_hex_digits() {
    let state = generate_state();
    assert_eq!(STATE_LEN, 16);
    assert_eq!(state.len(), 16);
    assert!(state.chars().all(|c| c.is_ascii_digit() || ('a'..='f').contains(&c)));
    let digits: String = (0..16).map(hex_digit).collect();
    assert_eq!(digits, "0123456789abcdef");
}

#[test]
fn challenge_is_the_url_safe_base64_of_the_sha256_of_the_verifier() {
    assert_eq!(
        generate_code_challenge("dBjftJeZ4CVP-mB92K27uhbUJU1p1r_wW1gFWFOEjXk"),
        "E9Melhoa2OwvFrEMTJguCHaoeK1t8URWbuGJSstw-cM"
    );
    assert_eq!(generate_code_challenge(""), "47DEQpj8HBSa-_TImW-5JCeuQeRkm5NMpJWZG3hSuFU");
}

#[test]
fn attempt_binds_the_challenge_to_the_verifier() {
    let attempt = AuthorizationAttempt::new();
    assert_eq!(attempt.code_verifier.len(), 128);
    assert_eq!(attempt.state.len(), 16);
    assert_eq!(attempt.code_challenge, generate_code_challenge(&attempt.code_verifier));
    assert_eq!(attempt.code_challenge.len(), 43);
}

#[test]
fn authorization_url_carries_every_parameter() {
    let attempt = AuthorizationAttempt {
        code_verifier: "v".repeat(128),
        code_challenge: "CHALLENGE".to_string(),
        state: "0123456789abcdef".to_string(),
    };
    let url = authorization_url("my-client", &attempt);
    assert_eq!(
        url,
        "https://accounts.spotify.com/authorize?client_id=my-client&response_type=code&redirect_uri=http%3A%2F%2F127.0.0.1%3A8888%2Fcallback&code_challenge_method=S256&code_challenge=CHALLENGE&state=0123456789abcdef&scope=user-read-private%20user-read-email%20playlist-read-private%20playlist-read-collaborative%20user-modify-playback-state%20user-read-playback-state%20user-read-currently-playing%20user-read-playback-position%20user-library-read"
    );
    assert_eq!(SCOPE.split(' ').count(), 9);
}

#[test]
fn client_starts_an_attempt_with_its_own_id() {
    let client = SpotifyClient::new("abc123".to_string(), "unused".to_string());
    let (attempt, url) = client.authenticate();
    assert_eq!(url, authorization_url("abc123", &attempt));
    assert!(url.contains("client_id=abc123&"));
    assert!(url.contains(&format!("code_challenge={}&", attempt.code_challenge)));
    assert!(url.contains(&format!("state={}&", attempt.state)));
}

#[test]
fn exchange_request_sends_code_verifier_and_client() {
    let client = SpotifyClient::new("cid".to_string(), "secret".to_string());
    let request = client.exchange_code_for_token("the-code", "the-verifier", REDIRECT_URI);
    assert_eq!(request.method, Method::Post);
    assert_eq!(request.url, "https://accounts.spotify.com/api/token");
    assert_eq!(request.bearer, None);
    assert!(request.query.is_empty());
    let pair = |a: &str, b: &str| (a.to_string(), b.to_string());
    assert_eq!(
        request.body,
        Body::Form(vec![
            pair("grant_type", "authorization_code"),
            pair("code", "the-code"),
            pair("redirect_uri", "http://127.0.0.1:8888/callback"),
            pair("client_id", "cid"),
            pair("code_verifier", "the-verifier"),
        ])
    );
}

#[test]
fn tokens_are_taken_only_from_a_successful_answer() {
    let mut client = SpotifyClient::new("cid".to_string(), "secret".to_string());
    assert_eq!(client.current_access_token(), Err(ApiError::NotAuthenticated));
    assert_eq!(client.token_received(400, None), Err(ApiError::AuthExchangeFailed { status: 400 }));
    let pair = TokenPair { access_token: "A1".to_string(), refresh_token: Some("R1".to_string()) };
    assert_eq!(client.token_received(500, Some(pair.clone())), Err(ApiError::AuthExchangeFailed { status: 500 }));
    assert_eq!(client.token_received(200, None), Err(ApiError::AuthExchangeFailed { status: 200 }));
    assert!(!client.is_authenticated() && !client.has_refresh_token());
    assert_eq!(client.token_received(200, Some(pair)), Ok(()));
    assert_eq!(client.current_access_token(), Ok("A1".to_string()));
    assert!(client.has_refresh_token());
}

#[test]
fn refresh_keeps_the_old_refresh_token_when_none_is_sent() {
    let mut client = SpotifyClient::new("cid".to_string(), "secret".to_string());
    client.set_initial(TokenPair { access_token: "A1".to_string(), refresh_token: Some("R1".to_string()) });
    let request = client.refresh_access_token();
    let pair = |a: &str, b: &str| (a.to_string(), b.to_string());
    assert_eq!(request.method, Method::Post);
    assert_eq!(request.url, TOKEN_URL);
    assert_eq!(request.bearer, None);
    assert_eq!(
        request.body,
        Body::Form(vec![pair("grant_type", "refresh_token"), pair("refresh_token", "R1"), pair("client_id", "cid")])
    );
    assert_eq!(client.token_refreshed(200, Some(TokenPair { access_token: "A2".to_string(), refresh_token: None })), Ok(()));
    assert_eq!(client.current_access_token(), Ok("A2".to_string()));
    assert_eq!(
        client.refresh_access_token().body,
        Body::Form(vec![pair("grant_type", "refresh_token"), pair("refresh_token", "R1"), pair("client_id", "cid")])
    );
    assert_eq!(
        client.token_refreshed(200, Some(TokenPair { access_token: "A3".to_string(), refresh_token: Some("R2".to_string()) })),
        Ok(())
    );
    assert_eq!(
        client.refresh_access_token().body,
        Body::Form(vec![pair("grant_type", "refresh_token"), pair("refresh_token", "R2"), pair("client_id", "cid")])
    );
}

#[test]
fn failed_refresh_keeps_the_stale_access_token() {
    let mut client = SpotifyClient::new("cid".to_string(), "secret".to_string());
    client.set_initial(TokenPair { access_token: "A1".to_string(), refresh_token: Some("R1".to_string()) });
    assert_eq!(client.token_refreshed(401, None), Err(ApiError::AuthExchangeFailed { status: 401 }));
    assert_eq!(client.token_refreshed(200, None), Err(ApiError::AuthExchangeFailed { status: 200 }));
    assert_eq!(client.current_access_token(), Ok("A1".to_string()));
    assert!(client.has_refresh_token());
}

#[test]
fn initial_pair_without_refresh_token_leaves_none() {
    let mut client = SpotifyClient::new("cid".to_string(), "secret".to_string());
    client.set_initial(TokenPair { access_token: "A1".to_string(), refresh_token: None });
    assert!(client.is_authenticated());
    assert!(!client.has_refresh_token());
}

#[test]
fn renewal_without_a_refresh_token_is_not_authenticated() {
    let mut client = SpotifyClient::new("cid".to_string(), "secret".to_string());
    assert_eq!(client.refresh_request(), Err(ApiError::NotAuthenticated));
    client.set_initial(TokenPair { access_token: "A1".to_string(), refresh_token: None });
    assert_eq!(client.refresh_request(), Err(ApiError::NotAuthenticated));
    client.set_initial(TokenPair { access_token: "A2".to_string(), refresh_token: Some("R".to_string()) });
    assert_eq!(client.refresh_request(), Ok(client.refresh_access_token()));
}
