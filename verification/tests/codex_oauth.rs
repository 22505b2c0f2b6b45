use base64::Engine;
use openfang_runtime::codex_oauth::token_resolution::{
    resolve_step, ResolveAction, ResolveEvent, ResolveStage, TokenSource,
};
use openfang_runtime::codex_oauth::urlencoding;
use openfang_runtime::codex_oauth::{
    authorization_url, base64_url_decode, build_auth_url, codex_cli_tokens_from_json,
    extract_account_id, generate_pkce, generate_state, parse_token_response,
    parse_token_response_at, pkce_from_seed, token_exchange_form, token_refresh_form,
    token_reply_outcome, token_reply_outcome_at, CodexTokens, TokenReply, TokenRequest,
    CODEX_AUTH_URL, EXPIRY_OUT_OF_RANGE, CODEX_CLIENT_ID, CODEX_REDIRECT_URI, CODEX_TOKEN_URL, MISSING_ACCESS_TOKEN,
};
use openfang_runtime::json::JsonValue;
use sha2::{Digest, Sha256};

fn b64url(data: &[u8]) -> String {
    base64::engine::general_purpose::URL_SAFE_NO_PAD.encode(data)
}

fn jwt_with_claims(claims_json: &str) -> String {
    format!("header.{}.signature", b64url(claims_json.as_bytes()))
}

fn obj(members: Vec<(&str, JsonValue)>) -> JsonValue {
    JsonValue::Object(members.into_iter().map(|(k, v)| (k.to_string(), v)).collect())
}

fn text(s: &str) -> JsonValue {
    JsonValue::Str(s.to_string())
}

fn unix_now() -> u64 {
    std::time::SystemTime::now().duration_since(std::time::UNIX_EPOCH).unwrap().as_secs()
}

fn tokens(expires_at: u64, refresh: Option<&str>) -> CodexTokens {
    CodexTokens {
        access_token: "t".into(),
        refresh_token: refresh.map(|r| r.to_string()),
        id_token: None,
        account_id: None,
        expires_at,
    }
}

#[test]
fn test_pkce_generation() {
    let pkce = generate_pkce();
    assert!(!pkce.verifier.is_empty());
    assert!(!pkce.challenge.is_empty());
    assert_ne!(pkce.verifier, pkce.challenge);
}

#[test]
fn test_state_generation() {
    let state = generate_state();
    assert!(!state.is_empty());
    // Two states should be different
    let state2 = generate_state();
    assert_ne!(state, state2);
}

#[test]
fn test_build_auth_url() {
    let auth = build_auth_url();
    assert!(auth.url.starts_with("https://auth.openai.com/oauth/authorize"));
    assert!(auth.url.contains("code_challenge_method=S256"));
    assert!(auth.url.contains("response_type=code"));
    assert!(auth.url.contains(CODEX_CLIENT_ID));
    assert!(!auth.verifier.is_empty());
    assert!(!auth.state.is_empty());
}

#[test]
fn test_extract_account_id_root() {
    let token = jwt_with_claims(r#"{"chatgpt_account_id":"acc_123"}"#);
    assert_eq!(extract_account_id(&token), Some("acc_123".to_string()));
}

#[test]
fn test_extract_account_id_nested() {
    let token = jwt_with_claims(r#"{"https://api.openai.com/auth":{"chatgpt_account_id":"acc_456"}}"#);
    assert_eq!(extract_account_id(&token), Some("acc_456".to_string()));
}

#[test]
fn test_extract_account_id_org() {
    let token = jwt_with_claims(r#"{"organizations":[{"id":"org_789"}]}"#);
    assert_eq!(extract_account_id(&token), Some("org_789".to_string()));
}

#[test]
fn test_extract_account_id_none() {
    assert_eq!(extract_account_id("not-a-jwt"), None);
    assert_eq!(extract_account_id("a.b.c"), None); // invalid base64
}

#[test]
fn test_token_validity() {
    let now = unix_now();

    // Valid token (expires in 1 hour)
    let valid = tokens(now + 3600, None);
    assert!(valid.is_valid());

    // Token that expires in < 5 min should be considered expired
    let almost_expired = tokens(now + 60, None);
    assert!(!almost_expired.is_valid());

    // Already expired token
    let expired = tokens(now - 100, None);
    assert!(!expired.is_valid());
}

#[test]
fn test_parse_token_response() {
    let body = obj(vec![
        ("access_token", text("test_access")),
        ("refresh_token", text("test_refresh")),
        ("id_token", text("test_id")),
        ("expires_in", JsonValue::Number(Some(3600))),
    ]);
    let tokens = parse_token_response(&body).unwrap();
    assert_eq!(tokens.access_token, "test_access");
    assert_eq!(tokens.refresh_token.as_deref(), Some("test_refresh"));
    assert_eq!(tokens.id_token.as_deref(), Some("test_id"));
    assert!(tokens.expires_at > 0);
}

#[test]
fn test_url_encoding() {
    assert_eq!(urlencoding::encode("hello world"), "hello%20world");
    assert_eq!(urlencoding::encode("foo+bar"), "foo%2Bbar");
    assert_eq!(urlencoding::encode("safe-chars_ok.here~"), "safe-chars_ok.here~");
}

#[test]
fn test_constants() {
    assert!(CODEX_AUTH_URL.starts_with("https://"));
    assert!(CODEX_TOKEN_URL.starts_with("https://"));
    assert!(!CODEX_CLIENT_ID.is_empty());
    assert!(CODEX_REDIRECT_URI.contains("callback"));
}

#[test]
fn url_encoding_of_reserved_and_multibyte_text() {
    assert_eq!(urlencoding::encode(""), "");
    assert_eq!(urlencoding::encode("a/b?c=d&e"), "a%2Fb%3Fc%3Dd%26e");
    assert_eq!(urlencoding::encode("é"), "%C3%A9");
    assert_eq!(urlencoding::encode("\n"), "%0A");
    assert_eq!(
        urlencoding::encode("openid profile email offline_access"),
        "openid%20profile%20email%20offline_access"
    );
}

#[test]
fn token_validity_at_fixed_times() {
    let t = tokens(1000, None);
    assert!(t.is_valid_at(699));
    assert!(!t.is_valid_at(700));
    assert!(!t.is_valid_at(2000));
    assert!(!tokens(0, None).is_valid_at(0));
    assert!(!tokens(0, None).is_valid());
    assert!(!tokens(u64::MAX, None).is_valid_at(u64::MAX));
    assert!(tokens(u64::MAX, None).is_valid_at(0));
}

#[test]
fn pkce_pair_from_fixed_seed() {
    let seed = [7u8; 32];
    let pkce = pkce_from_seed(&seed);
    assert_eq!(pkce.verifier, b64url(&seed));
    assert_eq!(pkce.verifier.len(), 43);
    let digest = Sha256::digest(pkce.verifier.as_bytes());
    assert_eq!(pkce.challenge, b64url(&digest));
    assert_eq!(pkce.challenge.len(), 43);
    let fresh = generate_pkce();
    assert_eq!(fresh.verifier.len(), 43);
    assert_eq!(fresh.challenge, b64url(&Sha256::digest(fresh.verifier.as_bytes())));
    assert_eq!(generate_state().len(), 22);
}

#[test]
fn authorization_url_exact_text() {
    let url = authorization_url("st-1", "ch_2");
    let expected = format!(
        "{}?response_type=code&client_id={}&redirect_uri={}&scope={}&state=st-1&code_challenge=ch_2\
         &code_challenge_method=S256&response_mode=query&prompt=login\
         &audience=https%3A%2F%2Fapi.openai.com%2Fv1&originator=pi",
        CODEX_AUTH_URL,
        CODEX_CLIENT_ID,
        "http%3A%2F%2Flocalhost%3A4200%2Fapi%2Fproviders%2Fopenai-codex%2Foauth%2Fcallback",
        "openid%20profile%20email%20offline_access",
    );
    assert_eq!(url, expected);
}

#[test]
fn built_url_carries_state_and_challenge() {
    let auth = build_auth_url();
    assert!(auth.url.contains(&format!("state={}", auth.state)));
    let challenge = b64url(&Sha256::digest(auth.verifier.as_bytes()));
    assert!(auth.url.contains(&format!("code_challenge={}&", challenge)));
}

#[test]
fn base64_decoding_variants() {
    assert_eq!(base64_url_decode("YWJj").unwrap(), b"abc".to_vec());
    assert_eq!(base64_url_decode("YWI").unwrap(), b"ab".to_vec());
    assert_eq!(base64_url_decode("YWI=").unwrap(), b"ab".to_vec());
    assert_eq!(base64_url_decode("-_8").unwrap(), vec![0xfb, 0xff]);
    assert_eq!(base64_url_decode("+/8=").unwrap(), vec![0xfb, 0xff]);
    let err = base64_url_decode("!!").unwrap_err();
    assert!(err.starts_with("Base64 decode error: "));
}

#[test]
fn account_id_sources_and_precedence() {
    let both = jwt_with_claims(
        r#"{"organizations":[{"id":"org_1"}],"chatgpt_account_id":"acc_root","https://api.openai.com/auth":{"chatgpt_account_id":"acc_nested"}}"#,
    );
    assert_eq!(extract_account_id(&both), Some("acc_root".to_string()));
    let nested_then_org = jwt_with_claims(
        r#"{"organizations":[{"id":"org_1"}],"https://api.openai.com/auth":{"chatgpt_account_id":"acc_nested"}}"#,
    );
    assert_eq!(extract_account_id(&nested_then_org), Some("acc_nested".to_string()));
    // a root claim that is not a string does not count
    let number_root = jwt_with_claims(r#"{"chatgpt_account_id":5,"organizations":[{"id":"org_2"}]}"#);
    assert_eq!(extract_account_id(&number_root), Some("org_2".to_string()));
    // only the first organization is looked at
    let second_org = jwt_with_claims(r#"{"organizations":[{"name":"x"},{"id":"org_3"}]}"#);
    assert_eq!(extract_account_id(&second_org), None);
    assert_eq!(extract_account_id(&jwt_with_claims("[1,2]")), None);
    assert_eq!(extract_account_id(&jwt_with_claims("not json")), None);
    // two parts are enough; padded claims decode too
    let padded = base64::engine::general_purpose::URL_SAFE.encode(r#"{"chatgpt_account_id":"p"}"#);
    assert_eq!(extract_account_id(&format!("h.{}", padded)), Some("p".to_string()));
}

#[test]
fn token_response_details() {
    let access = jwt_with_claims(r#"{"chatgpt_account_id":"acc_a"}"#);
    let id = jwt_with_claims(r#"{"chatgpt_account_id":"acc_i"}"#);
    let body = obj(vec![("access_token", text(&access)), ("id_token", text(&id))]);
    let t = parse_token_response_at(&body, 1_000).unwrap();
    assert_eq!(t.expires_at, 4_600);
    assert_eq!(t.refresh_token, None);
    assert_eq!(t.account_id.as_deref(), Some("acc_a"));
    let body = obj(vec![
        ("access_token", text("opaque")),
        ("id_token", text(&id)),
        ("expires_in", JsonValue::Number(Some(10))),
    ]);
    let t = parse_token_response_at(&body, 5).unwrap();
    assert_eq!(t.expires_at, 15);
    assert_eq!(t.account_id.as_deref(), Some("acc_i"));
    // a negative or fractional expires_in is not a u64: the default applies
    let body = obj(vec![("access_token", text("x")), ("expires_in", JsonValue::Number(None))]);
    assert_eq!(parse_token_response_at(&body, 0).unwrap().expires_at, 3600);
    let missing = obj(vec![("refresh_token", text("r"))]);
    assert_eq!(parse_token_response_at(&missing, 0).unwrap_err(), MISSING_ACCESS_TOKEN);
    let not_text = obj(vec![("access_token", JsonValue::Number(Some(1)))]);
    assert_eq!(parse_token_response(&not_text).unwrap_err(), MISSING_ACCESS_TOKEN);
    let huge = obj(vec![("access_token", text("x")), ("expires_in", JsonValue::Number(Some(u64::MAX)))]);
    assert!(parse_token_response(&huge).is_err());
}

#[test]
fn json_documents_parse() {
    let doc = JsonValue::parse(br#"{"a":{"b":[{"c":"d"}]},"n":42,"neg":-1}"#).expect("json");
    let c = doc.get("a").and_then(|a| a.get("b")).and_then(|b| b.first()).and_then(|x| x.get("c"));
    assert_eq!(c.and_then(|v| v.as_str()), Some("d"));
    assert_eq!(doc.unsigned_member("n"), Some(42));
    assert_eq!(doc.unsigned_member("neg"), None);
    assert_eq!(doc.text_member("a"), None);
    assert!(doc.get("missing").is_none());
    assert!(JsonValue::parse(b"{oops").is_none());
}

#[test]
fn codex_cli_credentials() {
    let json = JsonValue::parse(
        br#"{"token":"tok","refresh_token":"ref","expires_at":99,"chatgpt_account_id":"acc"}"#,
    )
    .unwrap();
    let t = codex_cli_tokens_from_json(&json).unwrap();
    assert_eq!(t.access_token, "tok");
    assert_eq!(t.refresh_token.as_deref(), Some("ref"));
    assert_eq!(t.expires_at, 99);
    assert_eq!(t.account_id.as_deref(), Some("acc"));
    let access = jwt_with_claims(r#"{"chatgpt_account_id":"from_jwt"}"#);
    let json = obj(vec![("access_token", text(&access))]);
    let t = codex_cli_tokens_from_json(&json).unwrap();
    assert_eq!(t.expires_at, 0);
    assert_eq!(t.account_id.as_deref(), Some("from_jwt"));
    // an access_token member that is not text hides the `token` member
    let json = obj(vec![("access_token", JsonValue::Null), ("token", text("tok"))]);
    assert!(codex_cli_tokens_from_json(&json).is_none());
    assert!(codex_cli_tokens_from_json(&obj(vec![])).is_none());
}

#[test]
fn token_endpoint_forms() {
    let form = token_exchange_form("the-code", "the-verifier");
    let names: Vec<&str> = form.iter().map(|(k, _)| k.as_str()).collect();
    assert_eq!(names, ["grant_type", "client_id", "code", "redirect_uri", "code_verifier"]);
    assert_eq!(form[0].1, "authorization_code");
    assert_eq!(form[2].1, "the-code");
    assert_eq!(form[4].1, "the-verifier");
    let form = token_refresh_form("r1");
    assert_eq!(form.len(), 3);
    assert_eq!(form[0], ("grant_type".to_string(), "refresh_token".to_string()));
    assert_eq!(form[1].1, CODEX_CLIENT_ID);
    assert_eq!(form[2], ("refresh_token".to_string(), "r1".to_string()));
}

/// Drives a resolution against canned answers and returns the final action
/// together with the actions taken on the way.
fn drive(
    stored: Option<CodexTokens>,
    stored_refresh: Result<CodexTokens, String>,
    cli: Option<CodexTokens>,
    cli_refresh: Result<CodexTokens, String>,
    now: u64,
) -> (ResolveAction, Vec<String>) {
    let mut stage = ResolveStage::Start;
    let mut event = ResolveEvent::Begin;
    let mut stored = Some(stored);
    let mut cli = Some(cli);
    let mut stored_refresh = Some(stored_refresh);
    let mut cli_refresh = Some(cli_refresh);
    let mut log = Vec::new();
    loop {
        let (next, action) = resolve_step(stage, event);
        stage = next;
        event = match action {
            ResolveAction::Load(TokenSource::Stored) => {
                log.push("load stored".to_string());
                ResolveEvent::Loaded { tokens: stored.take().unwrap(), now }
            }
            ResolveAction::Load(TokenSource::CodexCli) => {
                log.push("load cli".to_string());
                ResolveEvent::Loaded { tokens: cli.take().unwrap(), now }
            }
            ResolveAction::Refresh(r) => {
                log.push(format!("refresh {r}"));
                if stage == ResolveStage::Refreshing(TokenSource::Stored) {
                    ResolveEvent::Refreshed(stored_refresh.take().unwrap())
                } else {
                    ResolveEvent::Refreshed(cli_refresh.take().unwrap())
                }
            }
            other => return (other, log),
        };
    }
}

#[test]
fn resolution_prefers_valid_stored_tokens() {
    let (action, log) = drive(Some(tokens(10_000, None)), Err("x".into()), None, Err("x".into()), 100);
    assert!(matches!(action, ResolveAction::Return(Some(t)) if t.expires_at == 10_000));
    assert_eq!(log, ["load stored"]);
}

#[test]
fn resolution_refreshes_expired_stored_tokens() {
    let (action, log) = drive(
        Some(tokens(50, Some("r-stored"))),
        Ok(tokens(9_999, None)),
        None,
        Err("x".into()),
        100,
    );
    assert!(matches!(action, ResolveAction::SaveAndReturn(t) if t.expires_at == 9_999));
    assert_eq!(log, ["load stored", "refresh r-stored"]);
}

#[test]
fn resolution_falls_back_to_cli_tokens() {
    let (action, log) = drive(
        Some(tokens(50, Some("r-stored"))),
        Err("refresh failed".into()),
        Some(tokens(50, Some("r-cli"))),
        Ok(tokens(7_777, None)),
        100,
    );
    assert!(matches!(action, ResolveAction::SaveAndReturn(t) if t.expires_at == 7_777));
    assert_eq!(log, ["load stored", "refresh r-stored", "load cli", "refresh r-cli"]);

    let (action, log) = drive(None, Err("x".into()), Some(tokens(10_000, None)), Err("x".into()), 100);
    assert!(matches!(action, ResolveAction::Return(Some(t)) if t.expires_at == 10_000));
    assert_eq!(log, ["load stored", "load cli"]);
}

#[test]
fn resolution_gives_nothing_when_all_sources_fail() {
    let (action, log) = drive(
        Some(tokens(50, None)),
        Err("x".into()),
        Some(tokens(0, Some("r-cli"))),
        Err("down".into()),
        100,
    );
    assert!(matches!(action, ResolveAction::Return(None)));
    assert_eq!(log, ["load stored", "load cli", "refresh r-cli"]);
}

#[test]
fn encoded_values_use_only_url_safe_characters() {
    let encoded = urlencoding::encode("a b/c?d=é&€~_-.!*'()");
    assert!(encoded
        .chars()
        .all(|c| c.is_ascii_alphanumeric() || "-_.~%".contains(c)));
    assert!(encoded
        .split('%')
        .skip(1)
        .all(|chunk| chunk.len() >= 2 && chunk[..2].chars().all(|c| c.is_ascii_hexdigit() && !c.is_ascii_lowercase())));
}

#[test]
fn zero_lifetime_response_always_parses() {
    let body = obj(vec![("access_token", text("x")), ("expires_in", JsonValue::Number(Some(0)))]);
    let t = parse_token_response(&body).expect("no overflow is possible");
    assert!(t.expires_at > 0);
}

#[test]
fn verifier_decodes_back_to_its_seed() {
    let seed = [0xA5u8; 32];
    let pkce = pkce_from_seed(&seed);
    assert!(pkce.verifier.chars().all(|c| c.is_ascii_alphanumeric() || c == '-' || c == '_'));
    assert_eq!(base64_url_decode(&pkce.verifier).unwrap(), seed.to_vec());
}

#[test]
fn token_response_expiry_overflow_is_an_error_at_a_given_time() {
    let body = obj(vec![("access_token", text("x")), ("expires_in", JsonValue::Number(Some(10)))]);
    assert_eq!(parse_token_response_at(&body, u64::MAX - 10).unwrap().expires_at, u64::MAX);
    assert_eq!(parse_token_response_at(&body, u64::MAX - 9).unwrap_err(), EXPIRY_OUT_OF_RANGE);
    let missing = obj(vec![("expires_in", JsonValue::Number(Some(u64::MAX)))]);
    assert_eq!(parse_token_response_at(&missing, u64::MAX).unwrap_err(), MISSING_ACCESS_TOKEN);
}

#[test]
fn token_endpoint_replies() {
    let unsent = TokenReply::Unsent("timed out".to_string());
    assert_eq!(
        token_reply_outcome_at(TokenRequest::Exchange, &unsent, 0).unwrap_err(),
        "Token exchange request failed: timed out"
    );
    let rejected = TokenReply::Rejected {
        status: "400 Bad Request".to_string(),
        body: "{\"error\":\"invalid_grant\"}".to_string(),
    };
    assert_eq!(
        token_reply_outcome(TokenRequest::Exchange, &rejected).unwrap_err(),
        "Token exchange returned 400 Bad Request: {\"error\":\"invalid_grant\"}"
    );
    assert_eq!(
        token_reply_outcome(TokenRequest::Refresh, &rejected).unwrap_err(),
        "Token refresh returned 400 Bad Request: {\"error\":\"invalid_grant\"}"
    );
    let garbled = TokenReply::Unparsable("expected value at line 1 column 1".to_string());
    assert_eq!(
        token_reply_outcome(TokenRequest::Exchange, &garbled).unwrap_err(),
        "Failed to parse token response: expected value at line 1 column 1"
    );
    assert_eq!(
        token_reply_outcome(TokenRequest::Refresh, &garbled).unwrap_err(),
        "Failed to parse refresh response: expected value at line 1 column 1"
    );
    let doc = TokenReply::Document(obj(vec![("access_token", text("a")), ("refresh_token", text("r"))]));
    let t = token_reply_outcome_at(TokenRequest::Refresh, &doc, 100).unwrap();
    assert_eq!(t.access_token, "a");
    assert_eq!(t.refresh_token.as_deref(), Some("r"));
    assert_eq!(t.expires_at, 3_700);
    let empty = TokenReply::Document(obj(vec![]));
    assert_eq!(token_reply_outcome(TokenRequest::Exchange, &empty).unwrap_err(), MISSING_ACCESS_TOKEN);
}
