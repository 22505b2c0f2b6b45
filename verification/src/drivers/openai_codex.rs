//! OpenAI Codex OAuth driver: the token cache and request set-up for the Codex
//! Responses API (`chatgpt.com/backend-api/codex`).
//!
//! The driver keeps a cached copy of the OAuth access token with a precomputed
//! lifetime, refreshed a few minutes before the token itself expires.

use std::time::Instant;
use vstd::prelude::*;
use zeroize::Zeroizing;

use crate::codex_oauth::{unix_now_secs, valid_at, CodexTokens, REFRESH_BUFFER_SECS};
use crate::json::opt_string_view;

verus! {

/// Declares `std::time::Instant`, a reading of the monotonic clock.
#[verifier::external_type_specification]
#[verifier::external_body]
pub struct ExInstant(Instant);

/// A string that is wiped from memory when dropped: it holds a
/// `zeroize::Zeroizing<String>`, whose `Zeroize` bound keeps it from being
/// declared as a type of its own here, so the struct is opaque and its
/// contents are read through the name [`secret_text`].
#[verifier::external_body]
pub struct SecretString {
    inner: Zeroizing<String>,
}

/// The text held in a [`SecretString`].
pub uninterp spec fn secret_text(secret: SecretString) -> Seq<char>;

impl SecretString {
    /// Calls `Zeroizing::new`, which moves the string inside the wrapper; it then holds that text.
    #[verifier::external_body]
    pub fn new(s: String) -> (r: SecretString)
        ensures
            secret_text(r) == s@,
    {
        SecretString { inner: Zeroizing::new(s) }
    }

    /// Reads the text through `Zeroizing`'s `Deref` impl.
    #[verifier::external_body]
    pub fn as_str(&self) -> (r: &str)
        ensures
            r@ == secret_text(*self),
    {
        self.inner.as_str()
    }

    /// Calls `Zeroizing::clone`, which clones the held string; the copy holds the same text.
    #[verifier::external_body]
    pub fn duplicate(&self) -> (r: SecretString)
        ensures
            secret_text(r) == secret_text(*self),
    {
        SecretString { inner: self.inner.clone() }
    }
}

/// Calls `Instant::now`. Nothing is stated: it reads the clock.
#[verifier::external_body]
fn instant_now() -> Instant {
    Instant::now()
}

/// Calls `Instant::elapsed` and takes whole seconds. Nothing is stated: it reads the clock.
#[verifier::external_body]
fn whole_secs_since(t: &Instant) -> u64 {
    t.elapsed().as_secs()
}

/// Shortest lifetime given to a cached token.
pub const MIN_CACHE_TTL_SECS: u64 = 60;

/// The remaining lifetime of a token at Unix time `now`, at least a minute.
pub open spec fn token_ttl(expires_at: u64, now: u64) -> u64 {
    if expires_at > now {
        if expires_at - now > MIN_CACHE_TTL_SECS {
            (expires_at - now) as u64
        } else {
            MIN_CACHE_TTL_SECS
        }
    } else {
        MIN_CACHE_TTL_SECS
    }
}

/// How long a token fetched at Unix time `now` is kept in the cache: its
/// lifetime less five minutes, or less half of it when that is shorter.
pub open spec fn cache_lifetime(expires_at: u64, now: u64) -> u64 {
    let ttl = token_ttl(expires_at, now);
    let buffer = if REFRESH_BUFFER_SECS < ttl / 2 {
        REFRESH_BUFFER_SECS
    } else {
        ttl / 2
    };
    (ttl - buffer) as u64
}

/// How long a token fetched at Unix time `now` is kept in the cache.
pub fn cache_lifetime_secs(expires_at: u64, now: u64) -> (r: u64)
    ensures
        r == cache_lifetime(expires_at, now),
{
    let ttl_secs = if expires_at > now {
        let left = expires_at - now;
        if left > MIN_CACHE_TTL_SECS {
            left
        } else {
            MIN_CACHE_TTL_SECS
        }
    } else {
        MIN_CACHE_TTL_SECS
    };
    let half = ttl_secs / 2;
    let refresh_buffer = if REFRESH_BUFFER_SECS < half {
        REFRESH_BUFFER_SECS
    } else {
        half
    };
    ttl_secs - refresh_buffer
}

/// A cached token stays at least half a minute, never longer than the token's
/// remaining lifetime (taken as at least a minute), and is dropped before the
/// token expires whenever the token has more than a minute left.
pub proof fn lemma_cache_lifetime_bounds(expires_at: u64, now: u64)
    ensures
        cache_lifetime(expires_at, now) >= 30,
        cache_lifetime(expires_at, now) <= token_ttl(expires_at, now),
        cache_lifetime(expires_at, now) + REFRESH_BUFFER_SECS >= token_ttl(expires_at, now),
        expires_at > now + MIN_CACHE_TTL_SECS ==> cache_lifetime(expires_at, now) < expires_at - now,
{
}

/// Cached Codex API token with its cache lifetime.
///
/// The entry is fresh while fewer than `valid_for_secs` whole seconds have
/// passed since `issued_at`, that is, until `issued_at + valid_for_secs`.
pub struct CachedCodexAuth {
    /// Access token for the Codex API (wiped on drop).
    pub access_token: SecretString,
    /// ChatGPT account ID for request headers.
    pub account_id: Option<String>,
    /// When the entry was made.
    pub issued_at: Instant,
    /// How long the entry stays fresh, in seconds.
    pub valid_for_secs: u64,
    /// Refresh token for obtaining new access tokens.
    pub refresh_token: Option<SecretString>,
}

/// The text of an optional secret.
pub open spec fn opt_secret_text(o: Option<SecretString>) -> Option<Seq<char>> {
    match o {
        Some(s) => Some(secret_text(s)),
        None => None,
    }
}

/// Two cache entries hold the same token, account, issue time and lifetime.
pub open spec fn same_entry(a: CachedCodexAuth, b: CachedCodexAuth) -> bool {
    &&& secret_text(a.access_token) == secret_text(b.access_token)
    &&& opt_string_view(a.account_id) == opt_string_view(b.account_id)
    &&& a.issued_at == b.issued_at
    &&& a.valid_for_secs == b.valid_for_secs
    &&& opt_secret_text(a.refresh_token) == opt_secret_text(b.refresh_token)
}

fn copy_opt_string(o: &Option<String>) -> (r: Option<String>)
    ensures
        opt_string_view(r) == opt_string_view(*o),
{
    match o {
        Some(s) => Some(s.clone()),
        None => None,
    }
}

/// Whether an entry is still fresh after `elapsed` whole seconds.
pub open spec fn entry_fresh(a: CachedCodexAuth, elapsed: u64) -> bool {
    elapsed < a.valid_for_secs
}

impl CachedCodexAuth {
    /// Whether the entry is still fresh after `elapsed_secs` whole seconds.
    pub fn fresh_after(&self, elapsed_secs: u64) -> (r: bool)
        ensures
            r == entry_fresh(*self, elapsed_secs),
    {
        elapsed_secs < self.valid_for_secs
    }

    /// Whether the entry is still fresh now.
    pub fn is_valid(&self) -> (r: bool)
        ensures
            exists|elapsed: u64| r == entry_fresh(*self, elapsed),
            self.valid_for_secs == 0 ==> !r,
    {
        let elapsed = whole_secs_since(&self.issued_at);
        self.fresh_after(elapsed)
    }

    /// A copy of the entry.
    pub fn duplicate(&self) -> (r: Self)
        ensures
            same_entry(r, *self),
    {
        CachedCodexAuth {
            access_token: self.access_token.duplicate(),
            account_id: copy_opt_string(&self.account_id),
            issued_at: self.issued_at,
            valid_for_secs: self.valid_for_secs,
            refresh_token: match &self.refresh_token {
                Some(r) => Some(r.duplicate()),
                None => None,
            },
        }
    }
}

/// `a` is the cache entry for `tokens`, fetched at Unix time `now`.
pub open spec fn entry_for(tokens: CodexTokens, now: u64, a: CachedCodexAuth) -> bool {
    &&& secret_text(a.access_token) == tokens.access_token@
    &&& opt_string_view(a.account_id) == opt_string_view(tokens.account_id)
    &&& opt_secret_text(a.refresh_token) == opt_string_view(tokens.refresh_token)
    &&& a.valid_for_secs == cache_lifetime(tokens.expires_at, now)
}

/// The cache entry for `tokens`, fetched at Unix time `now_unix` and issued at `issued_at`.
pub fn tokens_to_cached_at(tokens: &CodexTokens, now_unix: u64, issued_at: Instant) -> (r:
    CachedCodexAuth)
    ensures
        entry_for(*tokens, now_unix, r),
        r.issued_at == issued_at,
{
    let valid_for_secs = cache_lifetime_secs(tokens.expires_at, now_unix);
    let refresh_token = match &tokens.refresh_token {
        Some(r) => Some(SecretString::new(r.clone())),
        None => None,
    };
    CachedCodexAuth {
        access_token: SecretString::new(tokens.access_token.clone()),
        account_id: copy_opt_string(&tokens.account_id),
        issued_at,
        valid_for_secs,
        refresh_token,
    }
}

/// Convert stored `CodexTokens` into a cache entry issued now.
pub fn tokens_to_cached(tokens: &CodexTokens) -> (r: CachedCodexAuth)
    ensures
        exists|now: u64| entry_for(*tokens, now, r),
{
    let now_unix = unix_now_secs();
    tokens_to_cached_at(tokens, now_unix, instant_now())
}

/// The entry a driver's cache starts with, for tokens loaded from storage and
/// judged at Unix time `now`, the entry being issued at `issued_at`: the entry
/// for the tokens when they are still valid at `now`, else none.
pub open spec fn loaded_entry(
    tokens: Option<CodexTokens>,
    now: u64,
    issued_at: Instant,
    entry: Option<CachedCodexAuth>,
) -> bool {
    match tokens {
        Some(t) => if valid_at(t.expires_at, now) {
            entry matches Some(a) && entry_for(t, now, a) && a.issued_at == issued_at
        } else {
            entry is None
        },
        None => entry is None,
    }
}

/// What a cache holding `entry` answers after the entry has aged `elapsed` whole seconds.
pub open spec fn cache_answer(entry: Option<CachedCodexAuth>, elapsed: u64) -> Option<CachedCodexAuth> {
    match entry {
        Some(a) => if elapsed < a.valid_for_secs {
            Some(a)
        } else {
            None
        },
        None => None,
    }
}

/// Two optional entries are both absent, or both present and the same.
pub open spec fn same_opt_entry(a: Option<CachedCodexAuth>, b: Option<CachedCodexAuth>) -> bool {
    match (a, b) {
        (Some(x), Some(y)) => same_entry(x, y),
        (None, None) => true,
        _ => false,
    }
}

/// The auth cache of the driver: at most one entry.
pub struct CodexAuthCache {
    cached: Option<CachedCodexAuth>,
}

impl CodexAuthCache {
    /// The entry held, fresh or not.
    pub closed spec fn entry(&self) -> Option<CachedCodexAuth> {
        self.cached
    }

    /// An empty cache.
    pub fn new() -> (r: Self)
        ensures
            r.entry() is None,
    {
        CodexAuthCache { cached: None }
    }

    /// What the cache answers when its entry has aged `elapsed` whole seconds:
    /// a copy of the entry while it is fresh, else nothing.
    pub fn get_at(&self, elapsed: u64) -> (r: Option<CachedCodexAuth>)
        ensures
            same_opt_entry(r, cache_answer(self.entry(), elapsed)),
    {
        match &self.cached {
            Some(a) => {
                if a.fresh_after(elapsed) {
                    Some(a.duplicate())
                } else {
                    None
                }
            },
            None => None,
        }
    }

    /// The cached entry, if it is still fresh.
    ///
    /// The clock is read once, for the time passed since the entry was issued,
    /// and [`CodexAuthCache::get_at`] answers for that reading.
    pub fn get(&self) -> (r: Option<CachedCodexAuth>)
        ensures
            exists|elapsed: u64| same_opt_entry(r, cache_answer(self.entry(), elapsed)),
            self.entry() is None ==> r is None,
    {
        match &self.cached {
            Some(a) => {
                let elapsed = whole_secs_since(&a.issued_at);
                self.get_at(elapsed)
            },
            None => self.get_at(0),
        }
    }

    /// Cache freshly fetched tokens as an entry issued now, and hand back a copy of it.
    pub fn store_fetched(&mut self, tokens: &CodexTokens) -> (r: CachedCodexAuth)
        ensures
            exists|now: u64| entry_for(*tokens, now, r),
            final(self).entry() matches Some(a) && same_entry(a, r),
    {
        let cached = tokens_to_cached(tokens);
        let copy = cached.duplicate();
        proof {
            let now = choose|now: u64| entry_for(*tokens, now, cached);
            assert(entry_for(*tokens, now, copy));
        }
        self.set(cached);
        copy
    }

    /// Replace the cached entry.
    pub fn set(&mut self, auth: CachedCodexAuth)
        ensures
            final(self).entry() == Some(auth),
    {
        self.cached = Some(auth);
    }

    /// The cache a driver starts with, for tokens loaded from storage, judged at
    /// Unix time `now` and issued at `issued_at`.
    pub fn from_loaded_at(tokens: Option<CodexTokens>, now: u64, issued_at: Instant) -> (r: Self)
        ensures
            loaded_entry(tokens, now, issued_at, r.entry()),
    {
        let mut cache = CodexAuthCache::new();
        if let Some(t) = tokens {
            if t.is_valid_at(now) {
                cache.set(tokens_to_cached_at(&t, now, issued_at));
            }
        }
        cache
    }

    /// The cache a driver starts with: the loaded tokens, when there are any and
    /// they are still valid.
    ///
    /// One reading of the clock both judges the tokens and sets the entry's lifetime.
    pub fn from_loaded(tokens: Option<CodexTokens>) -> (r: Self)
        ensures
            exists|now: u64, issued_at: Instant| loaded_entry(tokens, now, issued_at, r.entry()),
            tokens is None ==> r.entry() is None,
            r.entry() matches Some(a) ==> tokens matches Some(t) && t.expires_at
                > REFRESH_BUFFER_SECS && exists|now: u64| entry_for(t, now, a),
    {
        let now = unix_now_secs();
        let issued_at = instant_now();
        let r = Self::from_loaded_at(tokens, now, issued_at);
        assert(loaded_entry(tokens, now, issued_at, r.entry()));
        r
    }
}

impl Default for CodexAuthCache {
    fn default() -> (r: Self)
        ensures
            r.entry() is None,
    {
        Self::new()
    }
}

/// A fresh entry just stored is what the cache answers, until its lifetime is over.
pub proof fn lemma_answer_after_set(a: CachedCodexAuth, elapsed: u64)
    ensures
        cache_answer(Some(a), elapsed) == (if elapsed < a.valid_for_secs {
            Some(a)
        } else {
            None
        }),
{
}

/// The character views of a list of name/value pairs.
pub open spec fn header_pairs(v: Seq<(String, String)>) -> Seq<(Seq<char>, Seq<char>)> {
    v.map_values(|p: (String, String)| (p.0@, p.1@))
}

/// The extra headers sent to the Codex Responses API: the Responses beta flag and
/// the originator, then the ChatGPT account ID when one is known.
pub open spec fn codex_headers(account_id: Option<Seq<char>>) -> Seq<(Seq<char>, Seq<char>)> {
    let base = seq![("OpenAI-Beta"@, "responses=experimental"@), ("originator"@, "pi"@)];
    match account_id {
        Some(id) => base.push(("chatgpt-account-id"@, id)),
        None => base,
    }
}

/// The extra headers for requests made with a cache entry's account.
pub fn codex_request_headers(account_id: &Option<String>) -> (r: Vec<(String, String)>)
    ensures
        header_pairs(r@) == codex_headers(opt_string_view(*account_id)),
{
    let mut headers: Vec<(String, String)> = Vec::new();
    headers.push(("OpenAI-Beta".to_owned(), "responses=experimental".to_owned()));
    headers.push(("originator".to_owned(), "pi".to_owned()));
    if let Some(id) = account_id {
        headers.push(("chatgpt-account-id".to_owned(), id.clone()));
    }
    assert(header_pairs(headers@) =~= codex_headers(opt_string_view(*account_id)));
    headers
}

} // verus!
