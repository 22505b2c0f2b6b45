use std::time::{Duration, Instant};

use openfang_runtime::codex_oauth::{CodexTokens, CODEX_API_BASE_URL};
use openfang_runtime::drivers::openai_codex::{
    cache_lifetime_secs, codex_request_headers, tokens_to_cached, CachedCodexAuth, CodexAuthCache,
    SecretString,
};

fn unix_now() -> u64 {
    std::time::SystemTime::now().duration_since(std::time::UNIX_EPOCH).unwrap().as_secs()
}

#[test]
fn test_tokens_to_cached() {
    let now = unix_now();

    let tokens = CodexTokens {
        access_token: "test-access".to_string(),
        refresh_token: Some("test-refresh".to_string()),
        id_token: None,
        account_id: Some("acc_123".to_string()),
        expires_at: now + 3600,
    };

    let cached = tokens_to_cached(&tokens);
    assert_eq!(cached.access_token.as_str(), "test-access");
    assert_eq!(cached.account_id, Some("acc_123".to_string()));
    assert!(cached.is_valid());
    assert!(cached.refresh_token.is_some());
}

#[test]
fn test_auth_cache_empty() {
    let cache = CodexAuthCache::new();
    assert!(cache.get().is_none());
}

#[test]
fn test_auth_cache_set_get() {
    let mut cache = CodexAuthCache::new();
    // fresh until one hour from now
    let auth = CachedCodexAuth {
        access_token: SecretString::new("token".to_string()),
        account_id: Some("acc".to_string()),
        issued_at: Instant::now(),
        valid_for_secs: 3600,
        refresh_token: None,
    };
    cache.set(auth);
    let cached = cache.get();
    assert!(cached.is_some());
    assert_eq!(cached.unwrap().access_token.as_str(), "token");
}

#[test]
fn test_auth_cache_expired() {
    let mut cache = CodexAuthCache::new();
    // fresh until one second ago: already expired
    let auth = CachedCodexAuth {
        access_token: SecretString::new("token".to_string()),
        account_id: None,
        issued_at: Instant::now() - Duration::from_secs(1),
        valid_for_secs: 0,
        refresh_token: None,
    };
    cache.set(auth);
    assert!(cache.get().is_none()); // should not return expired
}

#[test]
fn test_codex_api_base_url() {
    assert_eq!(CODEX_API_BASE_URL, "https://chatgpt.com/backend-api/codex");
}

#[test]
fn cache_lifetimes() {
    // an hour left: refreshed five minutes early
    assert_eq!(cache_lifetime_secs(4_600, 1_000), 3_300);
    // 100 seconds left: half of it
    assert_eq!(cache_lifetime_secs(1_100, 1_000), 50);
    // less than a minute left, or already expired: a minute, halved
    assert_eq!(cache_lifetime_secs(1_010, 1_000), 30);
    assert_eq!(cache_lifetime_secs(0, 1_000), 30);
    assert_eq!(cache_lifetime_secs(u64::MAX, 0), u64::MAX - 300);
}

#[test]
fn cache_starts_from_loaded_tokens_only_when_valid() {
    let now = unix_now();
    let valid = CodexTokens {
        access_token: "a".to_string(),
        refresh_token: None,
        id_token: None,
        account_id: None,
        expires_at: now + 3600,
    };
    let cache = CodexAuthCache::from_loaded(Some(valid.clone()));
    assert_eq!(cache.get().expect("cached").access_token.as_str(), "a");
    let expired = CodexTokens { expires_at: now + 10, ..valid };
    assert!(CodexAuthCache::from_loaded(Some(expired)).get().is_none());
    assert!(CodexAuthCache::from_loaded(None).get().is_none());
    assert!(CodexAuthCache::default().get().is_none());
}

#[test]
fn duplicate_keeps_the_entry() {
    let auth = CachedCodexAuth {
        access_token: SecretString::new("tok".to_string()),
        account_id: Some("acc".to_string()),
        issued_at: Instant::now(),
        valid_for_secs: 10,
        refresh_token: Some(SecretString::new("ref".to_string())),
    };
    let copy = auth.duplicate();
    assert_eq!(copy.access_token.as_str(), "tok");
    assert_eq!(copy.refresh_token.as_ref().map(|r| r.as_str()), Some("ref"));
    assert_eq!(copy.valid_for_secs, 10);
    assert!(copy.fresh_after(9));
    assert!(!copy.fresh_after(10));
}

#[test]
fn request_headers() {
    let headers = codex_request_headers(&Some("acc_9".to_string()));
    assert_eq!(
        headers,
        vec![
            ("OpenAI-Beta".to_string(), "responses=experimental".to_string()),
            ("originator".to_string(), "pi".to_string()),
            ("chatgpt-account-id".to_string(), "acc_9".to_string()),
        ]
    );
    assert_eq!(codex_request_headers(&None).len(), 2);
}

#[test]
fn cache_from_loaded_tokens_at_a_given_time() {
    let tokens = CodexTokens {
        access_token: "a".to_string(),
        refresh_token: Some("r".to_string()),
        id_token: None,
        account_id: Some("acc".to_string()),
        expires_at: 4_600,
    };
    let issued = Instant::now();
    let cache = CodexAuthCache::from_loaded_at(Some(tokens.clone()), 1_000, issued);
    let entry = cache.get().expect("valid at 1000");
    assert_eq!(entry.valid_for_secs, 3_300);
    assert_eq!(entry.access_token.as_str(), "a");
    assert_eq!(entry.refresh_token.as_ref().map(|r| r.as_str()), Some("r"));
    // within the five-minute buffer the tokens are not taken
    assert!(CodexAuthCache::from_loaded_at(Some(tokens), 4_300, issued).get().is_none());
    assert!(CodexAuthCache::from_loaded_at(None, 0, issued).get().is_none());
}

#[test]
fn store_fetched_caches_and_returns_the_entry() {
    let mut cache = CodexAuthCache::new();
    let tokens = CodexTokens {
        access_token: "fresh".to_string(),
        refresh_token: None,
        id_token: None,
        account_id: None,
        expires_at: unix_now() + 3600,
    };
    let entry = cache.store_fetched(&tokens);
    assert_eq!(entry.access_token.as_str(), "fresh");
    assert_eq!(cache.get().expect("cached").access_token.as_str(), "fresh");
}

#[test]
fn cache_answers_for_a_given_age() {
    let mut cache = CodexAuthCache::new();
    assert!(cache.get_at(0).is_none());
    cache.set(CachedCodexAuth {
        access_token: SecretString::new("token".to_string()),
        account_id: Some("acc".to_string()),
        issued_at: Instant::now(),
        valid_for_secs: 60,
        refresh_token: Some(SecretString::new("r".to_string())),
    });
    let fresh = cache.get_at(59).expect("fresh at 59 seconds");
    assert_eq!(fresh.access_token.as_str(), "token");
    assert_eq!(fresh.account_id.as_deref(), Some("acc"));
    assert_eq!(fresh.valid_for_secs, 60);
    assert_eq!(fresh.refresh_token.as_ref().map(|r| r.as_str()), Some("r"));
    assert!(cache.get_at(60).is_none());
    assert!(cache.get_at(u64::MAX).is_none());
    // asking does not remove the entry
    assert!(cache.get_at(0).is_some());
}
