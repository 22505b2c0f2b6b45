//! OpenAI Codex OAuth: PKCE authorization code flow for obtaining Codex API tokens.
//!
//! Implements OAuth 2.0 Authorization Code Grant with PKCE (RFC 7636) for the
//! OpenAI Codex API. Users authenticate in a browser, and the resulting tokens
//! are stored and refreshed. Compatible with Codex CLI credentials at
//! `~/.codex/auth.json`.

pub mod token_resolution;
pub mod urlencoding;

use base64::Engine;
use sha2::{Digest, Sha256};
use vstd::prelude::*;
use vstd::string::StrSliceExecFns;
use vstd::string::StringExecFns;

use crate::json::{json_document, opt_string_view, JsonValue};
use crate::text::{chars_of, contains_seq, occurs_at};
use urlencoding::{encode, is_unreserved_char, lemma_unreserved_text_unchanged, percent_encoded};

verus! {

// ── Constants ────────────────────────────────────────────────────────

/// OpenAI OAuth authorization URL.
pub const CODEX_AUTH_URL: &'static str = "https://auth.openai.com/oauth/authorize";

/// OpenAI OAuth token URL.
pub const CODEX_TOKEN_URL: &'static str = "https://auth.openai.com/oauth/token";

/// Public OAuth client ID, the same as the Codex CLI's.
pub const CODEX_CLIENT_ID: &'static str = "app_EMoamEEZ73f0CkXaXp7hrann";

/// Default redirect URI: the OpenFang API server's callback endpoint.
pub const CODEX_REDIRECT_URI: &'static str =
    "http://localhost:4200/api/providers/openai-codex/oauth/callback";

/// Scopes required for Codex API access.
pub const CODEX_SCOPES: &'static str = "openid profile email offline_access";

/// Codex Responses API base URL.
pub const CODEX_API_BASE_URL: &'static str = "https://chatgpt.com/backend-api/codex";

/// Tokens are refreshed this many seconds before they expire.
pub const REFRESH_BUFFER_SECS: u64 = 300;

/// Lifetime assumed for an access token whose response gives no `expires_in`.
pub const DEFAULT_EXPIRES_IN_SECS: u64 = 3600;

// ── Types ────────────────────────────────────────────────────────────

/// OAuth tokens stored for the Codex provider.
#[derive(Debug, Clone)]
pub struct CodexTokens {
    /// OAuth access token.
    pub access_token: String,
    /// OAuth refresh token for obtaining new access tokens.
    pub refresh_token: Option<String>,
    /// OpenID Connect ID token (contains account info).
    pub id_token: Option<String>,
    /// ChatGPT account ID extracted from JWT claims.
    pub account_id: Option<String>,
    /// Unix timestamp when the access token expires (0 when unknown).
    pub expires_at: u64,
}

/// PKCE challenge pair.
pub struct PkceChallenge {
    pub verifier: String,
    pub challenge: String,
}

/// Result of starting an OAuth PKCE flow.
pub struct CodexAuthUrl {
    /// Full authorization URL to open in the browser.
    pub url: String,
    /// PKCE verifier (must be kept for the token exchange step).
    pub verifier: String,
    /// State parameter for CSRF protection.
    pub state: String,
}

/// Status of a Codex OAuth flow.
pub enum CodexFlowStatus {
    /// Waiting for the user to complete browser auth.
    WaitingForCallback,
    /// Authorization succeeded; holds the tokens.
    Complete(CodexTokens),
    /// The callback timed out.
    Timeout,
    /// An error occurred.
    Error(String),
}

// ── Token validity ───────────────────────────────────────────────────

/// Whether a token expiring at `expires_at` is still usable at Unix time `now`,
/// keeping the refresh buffer; an expiry of 0 means unknown and is never valid.
pub open spec fn valid_at(expires_at: u64, now: u64) -> bool {
    expires_at != 0 && expires_at > now + REFRESH_BUFFER_SECS
}

/// Calls `SystemTime::now().duration_since(UNIX_EPOCH)` and takes whole seconds
/// (0 when the clock reads before the epoch). Nothing is stated: it reads the clock.
#[verifier::external_body]
pub(crate) fn unix_now_secs() -> u64 {
    std::time::SystemTime::now().duration_since(std::time::UNIX_EPOCH).unwrap_or_default().as_secs()
}

impl CodexTokens {
    /// Whether the token is still valid at Unix time `now` (with the refresh buffer).
    pub fn is_valid_at(&self, now: u64) -> (r: bool)
        ensures
            r == valid_at(self.expires_at, now),
    {
        if self.expires_at == 0 {
            return false;
        }
        self.expires_at > now && self.expires_at - now > REFRESH_BUFFER_SECS
    }

    /// Check if the token is still valid now (with the refresh buffer).
    pub fn is_valid(&self) -> (r: bool)
        ensures
            exists|now: u64| r == valid_at(self.expires_at, now),
            self.expires_at == 0 ==> !r,
            r ==> self.expires_at > REFRESH_BUFFER_SECS,
    {
        let now = unix_now_secs();
        self.is_valid_at(now)
    }
}

/// A token that expires within the refresh buffer (five minutes) counts as expired,
/// and so does one whose expiry is unknown (0).
pub proof fn lemma_expiring_soon_is_invalid(expires_at: u64, now: u64)
    requires
        expires_at <= now + REFRESH_BUFFER_SECS || expires_at == 0,
    ensures
        !valid_at(expires_at, now),
{
}

/// A token valid at some time is valid at every earlier time.
pub proof fn lemma_validity_monotone(expires_at: u64, earlier: u64, later: u64)
    requires
        earlier <= later,
        valid_at(expires_at, later),
    ensures
        valid_at(expires_at, earlier),
{
}

// ── Outside primitives: randomness, SHA-256, Base64 ─────────────────

/// Calls `rand::random::<[u8; 32]>()`. Nothing is stated of the bytes: they are random.
#[verifier::external_body]
fn random_bytes_32() -> [u8; 32] {
    rand::random()
}

/// Calls `rand::random::<[u8; 16]>()`. Nothing is stated of the bytes: they are random.
#[verifier::external_body]
fn random_bytes_16() -> [u8; 16] {
    rand::random()
}

/// What the `base64` engine `URL_SAFE_NO_PAD` encodes a byte string to.
pub uninterp spec fn base64_url_no_pad(data: Seq<u8>) -> Seq<char>;

/// Characters of the URL-safe Base64 alphabet (RFC 4648, section 5).
pub open spec fn is_url_safe_base64_char(c: char) -> bool {
    let u = c as u32;
    (65 <= u <= 90) || (97 <= u <= 122) || (48 <= u <= 57) || u == 45 || u == 95
}

/// Calls `URL_SAFE_NO_PAD.encode` of the `base64` crate. Claims: the result is a
/// function of the bytes, named [`base64_url_no_pad`]; its length is what
/// `base64::encoded_len` gives without padding; its characters come from the
/// URL-safe alphabet; and the same engine decodes it back to the bytes (the
/// encoder writes no padding and zero trailing bits, which the `NO_PAD` decoder
/// requires). `encode` panics when that length overflows `usize`; the
/// `requires` keeps the input well below that.
#[verifier::external_body]
fn base64_url_encode(data: &[u8]) -> (r: String)
    requires
        data@.len() <= usize::MAX / 2,
    ensures
        r@ == base64_url_no_pad(data@),
        r@.len() == (4 * data@.len() + 2) / 3,
        forall|i: int| 0 <= i < r@.len() ==> is_url_safe_base64_char(#[trigger] r@[i]),
        base64_url_no_pad_decoded(r@) == Some(data@),
{
    base64::engine::general_purpose::URL_SAFE_NO_PAD.encode(data)
}

/// The SHA-256 digest of a byte string.
pub uninterp spec fn sha256_digest(data: Seq<u8>) -> Seq<u8>;

/// Calls `sha2::Sha256::digest`. Claims: the digest is a function of the bytes,
/// named [`sha256_digest`], and is 32 bytes long.
#[verifier::external_body]
fn sha256(data: &[u8]) -> (r: Vec<u8>)
    ensures
        r@ == sha256_digest(data@),
        r@.len() == 32,
{
    Sha256::digest(data).to_vec()
}

// ── PKCE ─────────────────────────────────────────────────────────────

/// The S256 code challenge of a verifier (RFC 7636): Base64url, unpadded, of the
/// SHA-256 digest of the verifier's bytes.
pub open spec fn s256_challenge(verifier: Seq<char>) -> Seq<char> {
    base64_url_no_pad(sha256_digest(vstd::utf8::encode_utf8(verifier)))
}

/// The PKCE pair whose verifier encodes the given random bytes.
pub fn pkce_from_seed(seed: &[u8]) -> (r: PkceChallenge)
    requires
        seed@.len() <= usize::MAX / 2,
    ensures
        r.verifier@ == base64_url_no_pad(seed@),
        r.challenge@ == s256_challenge(r.verifier@),
        r.verifier@.len() == (4 * seed@.len() + 2) / 3,
        r.challenge@.len() == 43,
        forall|i: int|
            0 <= i < r.verifier@.len() ==> is_url_safe_base64_char(#[trigger] r.verifier@[i]),
        base64_lenient_decoded(r.verifier@) == Some(seed@),
{
    let verifier = base64_url_encode(seed);
    let hash = sha256(verifier.as_str().as_bytes());
    let challenge = base64_url_encode(hash.as_slice());
    PkceChallenge { verifier, challenge }
}

/// Generate a PKCE S256 challenge pair from 32 random bytes.
pub fn generate_pkce() -> (r: PkceChallenge)
    ensures
        exists|seed: Seq<u8>| seed.len() == 32 && r.verifier@ == base64_url_no_pad(seed),
        r.challenge@ == s256_challenge(r.verifier@),
        r.verifier@.len() == 43,
        r.challenge@.len() == 43,
        forall|i: int|
            0 <= i < r.verifier@.len() ==> is_url_safe_base64_char(#[trigger] r.verifier@[i]),
        exists|seed: Seq<u8>| seed.len() == 32 && base64_lenient_decoded(r.verifier@) == Some(seed),
{
    let random_bytes = random_bytes_32();
    let pkce = pkce_from_seed(&random_bytes);
    assert(random_bytes@.len() == 32);
    pkce
}

/// Generate a random state parameter: 16 random bytes, Base64url without padding.
pub fn generate_state() -> (r: String)
    ensures
        exists|seed: Seq<u8>| seed.len() == 16 && r@ == base64_url_no_pad(seed),
        r@.len() == 22,
        forall|i: int| 0 <= i < r@.len() ==> is_url_safe_base64_char(#[trigger] r@[i]),
{
    let random_bytes = random_bytes_16();
    base64_url_encode(&random_bytes)
}

// ── Authorization URL ────────────────────────────────────────────────

/// One `key=value` query parameter, the value percent-encoded.
#[verifier::opaque]
pub open spec fn query_param(key: Seq<char>, value: Seq<char>) -> Seq<char> {
    key + "="@ + percent_encoded(vstd::utf8::encode_utf8(value))
}

/// The authorization URL for a given state and code challenge.
pub open spec fn auth_url(state: Seq<char>, challenge: Seq<char>) -> Seq<char> {
    CODEX_AUTH_URL@ + "?"@ + query_param("response_type"@, "code"@) + "&"@ + query_param(
        "client_id"@,
        CODEX_CLIENT_ID@,
    ) + "&"@ + query_param("redirect_uri"@, CODEX_REDIRECT_URI@) + "&"@ + query_param(
        "scope"@,
        CODEX_SCOPES@,
    ) + "&"@ + query_param("state"@, state) + "&"@ + query_param("code_challenge"@, challenge)
        + "&"@ + query_param("code_challenge_method"@, "S256"@) + "&"@ + query_param(
        "response_mode"@,
        "query"@,
    ) + "&"@ + query_param("prompt"@, "login"@) + "&"@ + query_param(
        "audience"@,
        "https://api.openai.com/v1"@,
    ) + "&"@ + query_param("originator"@, "pi"@)
}

fn append_param(url: &mut String, key: &str, value: &str)
    ensures
        final(url)@ == old(url)@ + query_param(key@, value@),
{
    url.append(key);
    url.append("=");
    let encoded = encode(value);
    url.append(encoded.as_str());
    reveal(query_param);
    assert(url@ =~= old(url)@ + query_param(key@, value@));
}

/// The authorization URL for the Codex OAuth PKCE flow, for a given state and challenge.
pub fn authorization_url(state: &str, challenge: &str) -> (r: String)
    ensures
        r@ == auth_url(state@, challenge@),
{
    let mut url = CODEX_AUTH_URL.to_owned();
    url.append("?");
    append_param(&mut url, "response_type", "code");
    url.append("&");
    append_param(&mut url, "client_id", CODEX_CLIENT_ID);
    url.append("&");
    append_param(&mut url, "redirect_uri", CODEX_REDIRECT_URI);
    url.append("&");
    append_param(&mut url, "scope", CODEX_SCOPES);
    url.append("&");
    append_param(&mut url, "state", state);
    url.append("&");
    append_param(&mut url, "code_challenge", challenge);
    url.append("&");
    append_param(&mut url, "code_challenge_method", "S256");
    url.append("&");
    append_param(&mut url, "response_mode", "query");
    url.append("&");
    append_param(&mut url, "prompt", "login");
    url.append("&");
    append_param(&mut url, "audience", "https://api.openai.com/v1");
    url.append("&");
    append_param(&mut url, "originator", "pi");
    url
}

/// Build the authorization URL for the Codex OAuth PKCE flow.
///
/// Returns the URL to open in the browser, plus the PKCE verifier and state
/// that must be kept for the token exchange step.
pub fn build_auth_url() -> (r: CodexAuthUrl)
    ensures
        r.url@ == auth_url(r.state@, s256_challenge(r.verifier@)),
        exists|seed: Seq<u8>| seed.len() == 32 && r.verifier@ == base64_url_no_pad(seed),
        exists|seed: Seq<u8>| seed.len() == 16 && r.state@ == base64_url_no_pad(seed),
        r.verifier@.len() == 43,
        forall|i: int|
            0 <= i < r.verifier@.len() ==> is_url_safe_base64_char(#[trigger] r.verifier@[i]),
        r.state@.len() == 22,
        forall|i: int| 0 <= i < r.state@.len() ==> is_url_safe_base64_char(#[trigger] r.state@[i]),
{
    let pkce = generate_pkce();
    let state = generate_state();
    let url = authorization_url(state.as_str(), pkce.challenge.as_str());
    CodexAuthUrl { url, verifier: pkce.verifier, state }
}

/// An occurrence stays where it is when text is appended.
proof fn lemma_occurs_extend(s: Seq<char>, t: Seq<char>, pat: Seq<char>, i: int)
    requires
        occurs_at(s, pat, i),
    ensures
        occurs_at(s + t, pat, i),
{
    assert((s + t).subrange(i, i + pat.len()) =~= s.subrange(i, i + pat.len()));
}

/// A state made of URL-safe Base64 characters appears verbatim, as `state=<state>`,
/// in the authorization URL, so the callback can compare it as it is.
pub proof fn lemma_state_verbatim_in_url(state: Seq<char>, challenge: Seq<char>)
    requires
        forall|i: int| 0 <= i < state.len() ==> is_url_safe_base64_char(#[trigger] state[i]),
    ensures
        contains_seq(auth_url(state, challenge), "state"@ + "="@ + state),
{
    assert forall|i: int| 0 <= i < state.len() implies is_unreserved_char(#[trigger] state[i]) by {
        assert(is_url_safe_base64_char(state[i]));
        let u = state[i] as u32;
        assert(u <= 127 ==> (u as u8) as u32 == u) by (bit_vector);
    }
    lemma_unreserved_text_unchanged(state);
    let target = "state"@ + "="@ + state;
    assert(query_param("state"@, state) =~= target) by {
        reveal(query_param);
    }
    let before = CODEX_AUTH_URL@ + "?"@ + query_param("response_type"@, "code"@) + "&"@
        + query_param("client_id"@, CODEX_CLIENT_ID@) + "&"@ + query_param(
        "redirect_uri"@,
        CODEX_REDIRECT_URI@,
    ) + "&"@ + query_param("scope"@, CODEX_SCOPES@) + "&"@;
    let s0 = before + query_param("state"@, state);
    assert(s0.subrange(before.len() as int, (before.len() + target.len()) as int) =~= target);
    assert(occurs_at(s0, target, before.len() as int));
    let s1 = s0 + "&"@;
    lemma_occurs_extend(s0, "&"@, target, before.len() as int);
    let s2 = s1 + query_param("code_challenge"@, challenge);
    lemma_occurs_extend(s1, query_param("code_challenge"@, challenge), target, before.len() as int);
    let s3 = s2 + "&"@;
    lemma_occurs_extend(s2, "&"@, target, before.len() as int);
    let s4 = s3 + query_param("code_challenge_method"@, "S256"@);
    lemma_occurs_extend(s3, query_param("code_challenge_method"@, "S256"@), target, before.len() as int);
    let s5 = s4 + "&"@;
    lemma_occurs_extend(s4, "&"@, target, before.len() as int);
    let s6 = s5 + query_param("response_mode"@, "query"@);
    lemma_occurs_extend(s5, query_param("response_mode"@, "query"@), target, before.len() as int);
    let s7 = s6 + "&"@;
    lemma_occurs_extend(s6, "&"@, target, before.len() as int);
    let s8 = s7 + query_param("prompt"@, "login"@);
    lemma_occurs_extend(s7, query_param("prompt"@, "login"@), target, before.len() as int);
    let s9 = s8 + "&"@;
    lemma_occurs_extend(s8, "&"@, target, before.len() as int);
    let s10 = s9 + query_param("audience"@, "https://api.openai.com/v1"@);
    lemma_occurs_extend(s9, query_param("audience"@, "https://api.openai.com/v1"@), target, before.len() as int);
    let s11 = s10 + "&"@;
    lemma_occurs_extend(s10, "&"@, target, before.len() as int);
    let s12 = s11 + query_param("originator"@, "pi"@);
    lemma_occurs_extend(s11, query_param("originator"@, "pi"@), target, before.len() as int);
    assert(s12 == auth_url(state, challenge));
}

// ── Base64 decoding ──────────────────────────────────────────────────

/// Declares `base64::DecodeError`, the error of the `base64` decoders.
#[verifier::external_type_specification]
#[verifier::external_body]
pub struct ExDecodeError(base64::DecodeError);

/// What the `base64` engine `URL_SAFE_NO_PAD` decodes a text to (`None` on error).
pub uninterp spec fn base64_url_no_pad_decoded(text: Seq<char>) -> Option<Seq<u8>>;

/// What the `base64` engine `URL_SAFE` decodes a text to (`None` on error).
pub uninterp spec fn base64_url_padded_decoded(text: Seq<char>) -> Option<Seq<u8>>;

/// What the `base64` engine `STANDARD` decodes a text to (`None` on error).
pub uninterp spec fn base64_standard_decoded(text: Seq<char>) -> Option<Seq<u8>>;

/// Calls `URL_SAFE_NO_PAD.decode` of the `base64` crate; the outcome is a function
/// of the text, named [`base64_url_no_pad_decoded`].
#[verifier::external_body]
fn decode_url_safe_no_pad(text: &str) -> (r: Result<Vec<u8>, base64::DecodeError>)
    ensures
        match r {
            Ok(bytes) => base64_url_no_pad_decoded(text@) == Some(bytes@),
            Err(_) => base64_url_no_pad_decoded(text@) is None,
        },
{
    base64::engine::general_purpose::URL_SAFE_NO_PAD.decode(text)
}

/// Calls `URL_SAFE.decode` of the `base64` crate; the outcome is a function of the
/// text, named [`base64_url_padded_decoded`].
#[verifier::external_body]
fn decode_url_safe(text: &str) -> (r: Result<Vec<u8>, base64::DecodeError>)
    ensures
        match r {
            Ok(bytes) => base64_url_padded_decoded(text@) == Some(bytes@),
            Err(_) => base64_url_padded_decoded(text@) is None,
        },
{
    base64::engine::general_purpose::URL_SAFE.decode(text)
}

/// Calls `STANDARD.decode` of the `base64` crate; the outcome is a function of the
/// text, named [`base64_standard_decoded`].
#[verifier::external_body]
fn decode_standard(text: &str) -> (r: Result<Vec<u8>, base64::DecodeError>)
    ensures
        match r {
            Ok(bytes) => base64_standard_decoded(text@) == Some(bytes@),
            Err(_) => base64_standard_decoded(text@) is None,
        },
{
    base64::engine::general_purpose::STANDARD.decode(text)
}

/// Renders a `base64::DecodeError` by its `Display` impl. Nothing is stated of the text.
#[verifier::external_body]
fn decode_error_text(e: &base64::DecodeError) -> String {
    e.to_string()
}

/// Decoding that accepts URL-safe Base64 with or without padding, and standard Base64.
pub open spec fn base64_lenient_decoded(text: Seq<char>) -> Option<Seq<u8>> {
    match base64_url_no_pad_decoded(text) {
        Some(bytes) => Some(bytes),
        None => match base64_url_padded_decoded(text) {
            Some(bytes) => Some(bytes),
            None => base64_standard_decoded(text),
        },
    }
}

/// Prefix of the error that a failed decode gives.
pub const BASE64_ERROR_PREFIX: &'static str = "Base64 decode error: ";

/// Base64 URL-safe decoding (handles both padded and unpadded), falling back to
/// the standard alphabet.
pub fn base64_url_decode(data: &str) -> (r: Result<Vec<u8>, String>)
    ensures
        match r {
            Ok(bytes) => base64_lenient_decoded(data@) == Some(bytes@),
            Err(msg) => base64_lenient_decoded(data@) is None && msg@.subrange(
                0,
                BASE64_ERROR_PREFIX@.len() as int,
            ) == BASE64_ERROR_PREFIX@,
        },
{
    match decode_url_safe_no_pad(data) {
        Ok(bytes) => Ok(bytes),
        Err(_) => match decode_url_safe(data) {
            Ok(bytes) => Ok(bytes),
            Err(_) => match decode_standard(data) {
                Ok(bytes) => Ok(bytes),
                Err(e) => {
                    let mut msg = BASE64_ERROR_PREFIX.to_owned();
                    msg.append(decode_error_text(&e).as_str());
                    assert(msg@.subrange(0, BASE64_ERROR_PREFIX@.len() as int)
                        =~= BASE64_ERROR_PREFIX@);
                    Err(msg)
                },
            },
        },
    }
}

// ── Account ID from JWT claims ───────────────────────────────────────

/// The index of the first `c` in `s`, or `s.len()` when there is none.
pub open spec fn first_index_of(s: Seq<char>, c: char) -> int
    decreases s.len(),
{
    if s.len() == 0 {
        0
    } else if s[0] == c {
        0
    } else {
        1 + first_index_of(s.drop_first(), c)
    }
}

/// `first_index_of` is the index of the first occurrence, or the length.
proof fn lemma_first_index_of(s: Seq<char>, c: char, p: int)
    requires
        0 <= p <= s.len(),
        forall|k: int| 0 <= k < p ==> s[k] != c,
        p < s.len() ==> s[p] == c,
    ensures
        first_index_of(s, c) == p,
    decreases p,
{
    if p > 0 {
        let rest = s.drop_first();
        assert forall|k: int| 0 <= k < p - 1 implies rest[k] != c by {
            assert(rest[k] == s[k + 1]);
        }
        lemma_first_index_of(rest, c, p - 1);
    }
}

/// The claims part of a JWT: the text between its first and second `.`
/// (or the end); `None` when the token has no `.`.
pub open spec fn claims_segment(token: Seq<char>) -> Option<Seq<char>> {
    let i = first_index_of(token, '.');
    if i >= token.len() {
        None
    } else {
        let rest = token.skip(i + 1);
        Some(rest.take(first_index_of(rest, '.')))
    }
}

/// The ChatGPT account ID named in decoded JWT claims: the root
/// `chatgpt_account_id`, else the one nested under `https://api.openai.com/auth`,
/// else the `id` of the first of `organizations`.
pub open spec fn account_id_in_claims(claims: JsonValue) -> Option<Seq<char>> {
    match claims.text_field("chatgpt_account_id"@) {
        Some(id) => Some(id),
        None => {
            let nested = match claims.field("https://api.openai.com/auth"@) {
                Some(auth) => auth.text_field("chatgpt_account_id"@),
                None => None,
            };
            match nested {
                Some(id) => Some(id),
                None => match claims.field("organizations"@) {
                    Some(orgs) => match orgs.first_element() {
                        Some(org) => org.text_field("id"@),
                        None => None,
                    },
                    None => None,
                },
            }
        },
    }
}

/// The ChatGPT account ID carried by a JWT, if any.
pub open spec fn account_id_of_token(token: Seq<char>) -> Option<Seq<char>> {
    match claims_segment(token) {
        None => None,
        Some(segment) => match base64_lenient_decoded(segment) {
            None => None,
            Some(bytes) => match json_document(bytes) {
                None => None,
                Some(claims) => account_id_in_claims(claims),
            },
        },
    }
}

/// The index of the first `c` in `s` at or after `from`, or `s.len()`.
fn index_of_from(s: &Vec<char>, c: char, from: usize) -> (r: usize)
    requires
        from <= s@.len(),
    ensures
        from <= r <= s@.len(),
        forall|k: int| from <= k < r ==> s@[k] != c,
        r < s@.len() ==> s@[r as int] == c,
{
    let mut i = from;
    while i < s.len()
        invariant
            from <= i <= s@.len(),
            forall|k: int| from <= k < i ==> s@[k] != c,
        decreases s.len() - i,
    {
        if s[i] == c {
            return i;
        }
        i = i + 1;
    }
    i
}

/// The ChatGPT account ID named in decoded JWT claims.
pub fn account_id_from_claims(claims: &JsonValue) -> (r: Option<String>)
    ensures
        opt_string_view(r) == account_id_in_claims(*claims),
{
    if let Some(id) = claims.text_member("chatgpt_account_id") {
        return Some(id);
    }
    if let Some(auth) = claims.get("https://api.openai.com/auth") {
        if let Some(id) = auth.text_member("chatgpt_account_id") {
            return Some(id);
        }
    }
    if let Some(orgs) = claims.get("organizations") {
        if let Some(org) = orgs.first() {
            return org.text_member("id");
        }
    }
    None
}

/// Extract the ChatGPT account ID from a JWT token's claims.
///
/// Tries, in order: the root `chatgpt_account_id`, the nested
/// `https://api.openai.com/auth.chatgpt_account_id`, and `organizations[0].id`.
pub fn extract_account_id(token: &str) -> (r: Option<String>)
    ensures
        opt_string_view(r) == account_id_of_token(token@),
{
    let chars = chars_of(token);
    let first = index_of_from(&chars, '.', 0);
    proof {
        lemma_first_index_of(token@, '.', first as int);
    }
    if first >= chars.len() {
        return None;
    }
    let second = index_of_from(&chars, '.', first + 1);
    let ghost rest = token@.skip(first + 1);
    proof {
        assert forall|k: int| 0 <= k < second - first - 1 implies rest[k] != '.' by {
            assert(rest[k] == token@[first + 1 + k]);
        }
        if second < chars.len() {
            assert(rest[second - first - 1] == token@[second as int]);
        }
        lemma_first_index_of(rest, '.', second - first - 1);
    }
    let segment = token.substring_char(first + 1, second);
    assert(segment@ =~= rest.take(second - first - 1));
    let claims_json = match base64_url_decode(segment) {
        Ok(bytes) => bytes,
        Err(_) => {
            return None;
        },
    };
    let claims = match JsonValue::parse(claims_json.as_slice()) {
        Some(claims) => claims,
        None => {
            return None;
        },
    };
    account_id_from_claims(&claims)
}

// ── Token responses ──────────────────────────────────────────────────

/// Error for a token response without an access token.
pub const MISSING_ACCESS_TOKEN: &'static str = "Missing access_token in token response";

/// Error for a token response whose expiry, added to the current time, leaves `u64`.
pub const EXPIRY_OUT_OF_RANGE: &'static str = "Token expiry time out of range in token response";

/// The lifetime a token response grants: its `expires_in`, or one hour.
pub open spec fn expires_in_of(body: JsonValue) -> u64 {
    match body.unsigned_field("expires_in"@) {
        Some(n) => n,
        None => DEFAULT_EXPIRES_IN_SECS,
    }
}

/// The account ID for a token pair: from the access token's claims, else from the ID token's.
pub open spec fn account_id_for(access: Seq<char>, id_token: Option<Seq<char>>) -> Option<Seq<char>> {
    match account_id_of_token(access) {
        Some(id) => Some(id),
        None => match id_token {
            Some(t) => account_id_of_token(t),
            None => None,
        },
    }
}

/// `t` is what a token response `body` gives when received at Unix time `now`.
pub open spec fn tokens_from_response(body: JsonValue, now: u64, t: CodexTokens) -> bool {
    &&& body.text_field("access_token"@) == Some(t.access_token@)
    &&& opt_string_view(t.refresh_token) == body.text_field("refresh_token"@)
    &&& opt_string_view(t.id_token) == body.text_field("id_token"@)
    &&& t.expires_at == now + expires_in_of(body)
    &&& opt_string_view(t.account_id) == account_id_for(t.access_token@, opt_string_view(t.id_token))
}

/// What parsing a token response gives when received at Unix time `now`: the
/// tokens, the missing-token error when there is no access token, or the
/// out-of-range error when the expiry, counted from `now`, does not fit a `u64`.
pub open spec fn response_outcome(body: JsonValue, now: u64, r: Result<CodexTokens, String>) -> bool {
    match r {
        Ok(t) => tokens_from_response(body, now, t),
        Err(msg) => {
            ||| body.text_field("access_token"@) is None && msg@ == MISSING_ACCESS_TOKEN@
            ||| body.text_field("access_token"@) is Some && msg@ == EXPIRY_OUT_OF_RANGE@ && now
                + expires_in_of(body) > u64::MAX
        },
    }
}

/// Parse a token response received at Unix time `now` into `CodexTokens`.
///
/// It fails with the missing-token error exactly when there is no access token,
/// and with the out-of-range error exactly when there is one and the expiry,
/// counted from `now`, does not fit a `u64`.
pub fn parse_token_response_at(body: &JsonValue, now: u64) -> (r: Result<CodexTokens, String>)
    ensures
        response_outcome(*body, now, r),
        body.text_field("access_token"@) is None <==> (r matches Err(msg) && msg@
            == MISSING_ACCESS_TOKEN@),
        r is Ok <==> (body.text_field("access_token"@) is Some && now + expires_in_of(*body)
            <= u64::MAX),
{
    proof {
        broadcast use vstd::string::group_string_axioms;

        reveal_strlit("Missing access_token in token response");
        reveal_strlit("Token expiry time out of range in token response");
        assert(MISSING_ACCESS_TOKEN@.len() != EXPIRY_OUT_OF_RANGE@.len());
    }
    let access_token = match body.text_member("access_token") {
        Some(t) => t,
        None => {
            return Err(MISSING_ACCESS_TOKEN.to_owned());
        },
    };
    let refresh_token = body.text_member("refresh_token");
    let id_token = body.text_member("id_token");
    let expires_in = match body.unsigned_member("expires_in") {
        Some(n) => n,
        None => DEFAULT_EXPIRES_IN_SECS,
    };
    if expires_in > u64::MAX - now {
        return Err(EXPIRY_OUT_OF_RANGE.to_owned());
    }
    let expires_at = now + expires_in;
    let account_id = match extract_account_id(access_token.as_str()) {
        Some(id) => Some(id),
        None => match &id_token {
            Some(t) => extract_account_id(t.as_str()),
            None => None,
        },
    };
    Ok(CodexTokens { access_token, refresh_token, id_token, account_id, expires_at })
}

/// Parse a token response into `CodexTokens`, its expiry counted from now.
///
/// The clock is read once and [`parse_token_response_at`] parses for that
/// reading; the outcome is the missing-token error exactly when there is no
/// access token, and success whenever the response's lifetime is 0 (no clock
/// reading can overflow then).
pub fn parse_token_response(body: &JsonValue) -> (r: Result<CodexTokens, String>)
    ensures
        exists|now: u64| response_outcome(*body, now, r),
        body.text_field("access_token"@) is None <==> (r matches Err(msg) && msg@
            == MISSING_ACCESS_TOKEN@),
        body.text_field("access_token"@) is Some && expires_in_of(*body) == 0 ==> r is Ok,
{
    let now = unix_now_secs();
    parse_token_response_at(body, now)
}

// ── Token endpoint replies ───────────────────────────────────────────

/// Which request was made of the token endpoint.
#[derive(Debug, Clone, Copy, PartialEq, Eq, Structural)]
pub enum TokenRequest {
    /// Exchanging an authorization code.
    Exchange,
    /// Refreshing with a refresh token.
    Refresh,
}

/// What came back from the token endpoint.
#[derive(Debug)]
pub enum TokenReply {
    /// The request could not be sent, for the reason given.
    Unsent(String),
    /// The reply's status is not a success: its status line and body text.
    Rejected { status: String, body: String },
    /// A successful reply whose body is not a JSON document, for the reason given.
    Unparsable(String),
    /// A successful reply whose body is this JSON document.
    Document(JsonValue),
}

/// The word for a request in error messages.
pub open spec fn request_word(kind: TokenRequest) -> Seq<char> {
    match kind {
        TokenRequest::Exchange => "exchange"@,
        TokenRequest::Refresh => "refresh"@,
    }
}

/// The word for the response to a request in error messages.
pub open spec fn response_noun(kind: TokenRequest) -> Seq<char> {
    match kind {
        TokenRequest::Exchange => "token"@,
        TokenRequest::Refresh => "refresh"@,
    }
}

/// The error for a request that could not be sent.
pub open spec fn unsent_text(kind: TokenRequest, reason: Seq<char>) -> Seq<char> {
    "Token "@ + request_word(kind) + " request failed: "@ + reason
}

/// The error for a reply whose status is not a success.
pub open spec fn rejected_text(kind: TokenRequest, status: Seq<char>, body: Seq<char>) -> Seq<char> {
    "Token "@ + request_word(kind) + " returned "@ + status + ": "@ + body
}

/// The error for a successful reply whose body is not JSON.
pub open spec fn unparsable_text(kind: TokenRequest, reason: Seq<char>) -> Seq<char> {
    "Failed to parse "@ + response_noun(kind) + " response: "@ + reason
}

/// What the library makes of a token endpoint reply received at Unix time `now`.
pub open spec fn reply_outcome(
    kind: TokenRequest,
    reply: TokenReply,
    now: u64,
    r: Result<CodexTokens, String>,
) -> bool {
    match reply {
        TokenReply::Unsent(reason) => r matches Err(m) && m@ == unsent_text(kind, reason@),
        TokenReply::Rejected { status, body } => r matches Err(m) && m@ == rejected_text(
            kind,
            status@,
            body@,
        ),
        TokenReply::Unparsable(reason) => r matches Err(m) && m@ == unparsable_text(kind, reason@),
        TokenReply::Document(json) => response_outcome(json, now, r),
    }
}

fn request_word_str(kind: TokenRequest) -> (r: &'static str)
    ensures
        r@ == request_word(kind),
{
    match kind {
        TokenRequest::Exchange => "exchange",
        TokenRequest::Refresh => "refresh",
    }
}

fn response_noun_str(kind: TokenRequest) -> (r: &'static str)
    ensures
        r@ == response_noun(kind),
{
    match kind {
        TokenRequest::Exchange => "token",
        TokenRequest::Refresh => "refresh",
    }
}

/// The error for a request that could not be sent.
pub fn unsent_error(kind: TokenRequest, reason: &str) -> (r: String)
    ensures
        r@ == unsent_text(kind, reason@),
{
    let mut msg = "Token ".to_owned();
    msg.append(request_word_str(kind));
    msg.append(" request failed: ");
    msg.append(reason);
    msg
}

/// The error for a reply whose status is not a success.
pub fn rejected_error(kind: TokenRequest, status: &str, body: &str) -> (r: String)
    ensures
        r@ == rejected_text(kind, status@, body@),
{
    let mut msg = "Token ".to_owned();
    msg.append(request_word_str(kind));
    msg.append(" returned ");
    msg.append(status);
    msg.append(": ");
    msg.append(body);
    msg
}

/// The error for a successful reply whose body is not JSON.
pub fn unparsable_error(kind: TokenRequest, reason: &str) -> (r: String)
    ensures
        r@ == unparsable_text(kind, reason@),
{
    let mut msg = "Failed to parse ".to_owned();
    msg.append(response_noun_str(kind));
    msg.append(" response: ");
    msg.append(reason);
    msg
}

/// The tokens, or the error, that a token endpoint reply received at Unix time `now` gives.
pub fn token_reply_outcome_at(kind: TokenRequest, reply: &TokenReply, now: u64) -> (r: Result<
    CodexTokens,
    String,
>)
    ensures
        reply_outcome(kind, *reply, now, r),
{
    match reply {
        TokenReply::Unsent(reason) => Err(unsent_error(kind, reason.as_str())),
        TokenReply::Rejected { status, body } => Err(
            rejected_error(kind, status.as_str(), body.as_str()),
        ),
        TokenReply::Unparsable(reason) => Err(unparsable_error(kind, reason.as_str())),
        TokenReply::Document(json) => parse_token_response_at(json, now),
    }
}

/// The tokens, or the error, that a token endpoint reply gives; a JSON document
/// is parsed with its expiry counted from now (one reading of the clock).
pub fn token_reply_outcome(kind: TokenRequest, reply: &TokenReply) -> (r: Result<
    CodexTokens,
    String,
>)
    ensures
        exists|now: u64| reply_outcome(kind, *reply, now, r),
        !(reply is Document) ==> reply_outcome(kind, *reply, 0, r),
{
    let now = unix_now_secs();
    token_reply_outcome_at(kind, reply, now)
}

/// The access token in a Codex CLI credentials file: `access_token`, or `token`
/// when there is no `access_token` member.
pub open spec fn cli_access_token(json: JsonValue) -> Option<Seq<char>> {
    match json.field("access_token"@) {
        Some(v) => v.text(),
        None => json.text_field("token"@),
    }
}

/// The account ID in a Codex CLI credentials file: `account_id`, or
/// `chatgpt_account_id` when there is no `account_id` member, else the one in
/// the access token's claims.
pub open spec fn cli_account_id(json: JsonValue, access: Seq<char>) -> Option<Seq<char>> {
    let direct = match json.field("account_id"@) {
        Some(v) => v.text(),
        None => json.text_field("chatgpt_account_id"@),
    };
    match direct {
        Some(id) => Some(id),
        None => account_id_of_token(access),
    }
}

/// Convert the contents of a Codex CLI credentials file (`~/.codex/auth.json`) into tokens.
///
/// The file has the form `{"access_token": ..., "refresh_token": ..., "expires_at": ...}`,
/// or names the access token `token`. `None` when there is no access token.
pub fn codex_cli_tokens_from_json(json: &JsonValue) -> (r: Option<CodexTokens>)
    ensures
        match r {
            None => cli_access_token(*json) is None,
            Some(t) => {
                &&& cli_access_token(*json) == Some(t.access_token@)
                &&& opt_string_view(t.refresh_token) == json.text_field("refresh_token"@)
                &&& opt_string_view(t.id_token) == json.text_field("id_token"@)
                &&& t.expires_at == match json.unsigned_field("expires_at"@) {
                    Some(n) => n,
                    None => 0,
                }
                &&& opt_string_view(t.account_id) == cli_account_id(*json, t.access_token@)
            },
        },
        json.text_field("access_token"@) matches Some(a) ==> (r matches Some(t) && t.access_token@
            == a),
        r matches Some(t) ==> (json.text_field("account_id"@) matches Some(a) ==> opt_string_view(
            t.account_id,
        ) == Some(a)),
        r matches Some(t) ==> (json.field("account_id"@) is None && json.text_field(
            "chatgpt_account_id"@,
        ) is Some ==> opt_string_view(t.account_id) == json.text_field("chatgpt_account_id"@)),
{
    let access_value = match json.get("access_token") {
        Some(v) => Some(v),
        None => json.get("token"),
    };
    let access_token = match access_value {
        Some(v) => match v.as_str() {
            Some(s) => s.to_owned(),
            None => {
                return None;
            },
        },
        None => {
            return None;
        },
    };
    let refresh_token = json.text_member("refresh_token");
    let id_token = json.text_member("id_token");
    let expires_at = match json.unsigned_member("expires_at") {
        Some(n) => n,
        None => 0,
    };
    let account_value = match json.get("account_id") {
        Some(v) => Some(v),
        None => json.get("chatgpt_account_id"),
    };
    let direct = match account_value {
        Some(v) => match v.as_str() {
            Some(s) => Some(s.to_owned()),
            None => None,
        },
        None => None,
    };
    let account_id = match direct {
        Some(id) => Some(id),
        None => extract_account_id(access_token.as_str()),
    };
    Some(CodexTokens { access_token, refresh_token, id_token, account_id, expires_at })
}

/// What a Codex CLI credentials file gives, member by member: a text
/// `access_token` is the access token, else a text `token` when there is no
/// `access_token` member; there is no access token when neither is there; a
/// text `account_id` is the account ID, else a text `chatgpt_account_id` when
/// there is no `account_id` member, else the account ID in the access token's claims.
pub proof fn lemma_cli_credentials_members(json: JsonValue, access: Seq<char>)
    ensures
        json.text_field("access_token"@) matches Some(a) ==> cli_access_token(json) == Some(a),
        json.field("access_token"@) is None && json.text_field("token"@) is Some
            ==> cli_access_token(json) == json.text_field("token"@),
        json.field("access_token"@) is None && json.field("token"@) is None ==> cli_access_token(
            json,
        ) is None,
        json.text_field("account_id"@) matches Some(a) ==> cli_account_id(json, access) == Some(a),
        json.field("account_id"@) is None && json.text_field("chatgpt_account_id"@) is Some
            ==> cli_account_id(json, access) == json.text_field("chatgpt_account_id"@),
        json.field("account_id"@) is None && json.field("chatgpt_account_id"@) is None
            ==> cli_account_id(json, access) == account_id_of_token(access),
{
}

// ── Token endpoint forms ─────────────────────────────────────────────

/// The character views of a list of name/value pairs.
pub open spec fn pairs_view(v: Seq<(String, String)>) -> Seq<(Seq<char>, Seq<char>)> {
    v.map_values(|p: (String, String)| (p.0@, p.1@))
}

fn form_pair(name: &str, value: &str) -> (r: (String, String))
    ensures
        r.0@ == name@,
        r.1@ == value@,
{
    (name.to_owned(), value.to_owned())
}

/// The form posted to the token endpoint to exchange an authorization code.
pub fn token_exchange_form(code: &str, verifier: &str) -> (r: Vec<(String, String)>)
    ensures
        pairs_view(r@) == seq![
            ("grant_type"@, "authorization_code"@),
            ("client_id"@, CODEX_CLIENT_ID@),
            ("code"@, code@),
            ("redirect_uri"@, CODEX_REDIRECT_URI@),
            ("code_verifier"@, verifier@),
        ],
{
    let mut form: Vec<(String, String)> = Vec::new();
    form.push(form_pair("grant_type", "authorization_code"));
    form.push(form_pair("client_id", CODEX_CLIENT_ID));
    form.push(form_pair("code", code));
    form.push(form_pair("redirect_uri", CODEX_REDIRECT_URI));
    form.push(form_pair("code_verifier", verifier));
    assert(pairs_view(form@) =~= seq![
        ("grant_type"@, "authorization_code"@),
        ("client_id"@, CODEX_CLIENT_ID@),
        ("code"@, code@),
        ("redirect_uri"@, CODEX_REDIRECT_URI@),
        ("code_verifier"@, verifier@),
    ]);
    form
}

/// The form posted to the token endpoint to refresh an access token.
pub fn token_refresh_form(refresh_token: &str) -> (r: Vec<(String, String)>)
    ensures
        pairs_view(r@) == seq![
            ("grant_type"@, "refresh_token"@),
            ("client_id"@, CODEX_CLIENT_ID@),
            ("refresh_token"@, refresh_token@),
        ],
{
    let mut form: Vec<(String, String)> = Vec::new();
    form.push(form_pair("grant_type", "refresh_token"));
    form.push(form_pair("client_id", CODEX_CLIENT_ID));
    form.push(form_pair("refresh_token", refresh_token));
    assert(pairs_view(form@) =~= seq![
        ("grant_type"@, "refresh_token"@),
        ("client_id"@, CODEX_CLIENT_ID@),
        ("refresh_token"@, refresh_token@),
    ]);
    form
}

} // verus!
