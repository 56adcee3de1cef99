//! Credential lifetime policy.
//!
//! A credential is an opaque access token together with the absolute time (in
//! seconds) at which it expires. Every fetch must happen while the credential
//! is still valid for at least the safety margin; the refresh decision below
//! says exactly when a new token-exchange must be performed.

use vstd::prelude::*;
use vstd::string::StringExecFns;

verus! {

/// Names what the standard base64 engine computes for a piece of text: its
/// base64 encoding, a function of the input alone.
pub uninterp spec fn base64_of(s: Seq<char>) -> Seq<char>;

/// Relies on base64's `STANDARD` engine (`Engine::encode` on the UTF-8 bytes
/// of the input): the encoding is a function of the input alone.
#[verifier::external_body]
fn encode_base64(s: &str) -> (r: String)
    ensures
        r@ == base64_of(s@),
{
    base64::Engine::encode(&base64::engine::general_purpose::STANDARD, s.as_bytes())
}

/// The basic-authorization header of the client-credentials token exchange:
/// `Basic` followed by the base64 encoding of `app_id:app_secret`.
pub fn basic_auth_header(app_id: &str, app_secret: &str) -> (r: String)
    ensures
        r@ == "Basic "@ + base64_of(app_id@ + ":"@ + app_secret@),
{
    let mut creds = app_id.to_owned();
    creds.append(":");
    creds.append(app_secret);
    let encoded = encode_base64(creds.as_str());
    let mut r = String::from_str("Basic ");
    r.append(encoded.as_str());
    r
}

/// Minimum remaining lifetime, in seconds, a credential must still have at the
/// moment a fetch is issued.
pub const SAFETY_MARGIN_SECS: u64 = 5;

/// An access token together with the absolute second at which it expires.
pub struct Credential {
    pub access_token: String,
    pub expires_at: u64,
}

/// `a + b` clamped to the largest `u64`.
pub open spec fn saturating_add_u64(a: u64, b: u64) -> u64 {
    if a + b > u64::MAX {
        u64::MAX
    } else {
        (a + b) as u64
    }
}

impl Credential {
    /// The credential is still usable at time `now`: strictly more than the
    /// safety margin remains before it expires.
    pub open spec fn valid_at(self, now: u64) -> bool {
        now + SAFETY_MARGIN_SECS < self.expires_at
    }

    /// The credential a token exchange at `now` with lifetime `expires_in`
    /// yields.
    pub open spec fn issued_value(access_token: String, expires_in: u64, now: u64) -> Credential {
        Credential { access_token, expires_at: saturating_add_u64(now, expires_in) }
    }

    /// Builds the credential issued at time `now` with a lifetime of
    /// `expires_in` seconds, as returned by the token exchange.
    pub fn issued(access_token: String, expires_in: u64, now: u64) -> (c: Credential)
        ensures
            c.access_token == access_token,
            c.expires_at == saturating_add_u64(now, expires_in),
    {
        let expires_at: u64 = if expires_in > u64::MAX - now {
            u64::MAX
        } else {
            now + expires_in
        };
        Credential { access_token, expires_at }
    }

    /// Whether a token exchange must happen before the next fetch: true
    /// exactly when the credential is within the safety margin of expiry.
    pub fn needs_refresh(&self, now: u64) -> (r: bool)
        ensures
            r == !self.valid_at(now),
    {
        match now.checked_add(SAFETY_MARGIN_SECS) {
            None => true,
            Some(t) => t >= self.expires_at,
        }
    }
}

/// The refresh decision: a token exchange must happen when no credential is
/// held yet or when the held one is within the safety margin of expiry.
pub open spec fn spec_refresh_needed(current: Option<Credential>, now: u64) -> bool {
    match current {
        Option::None => true,
        Option::Some(c) => !c.valid_at(now),
    }
}

/// The refresh decision for a cycle: refresh when no credential is held yet or
/// when the held one is within the safety margin of expiry.
pub fn refresh_needed(current: &Option<Credential>, now: u64) -> (r: bool)
    ensures
        r == spec_refresh_needed(*current, now),
{
    match current {
        None => true,
        Some(c) => c.needs_refresh(now),
    }
}

/// Law: a freshly issued credential is valid at its issue time whenever the
/// returned lifetime exceeds the safety margin (and the expiry arithmetic
/// does not saturate).
pub proof fn lemma_fresh_credential_valid(access_token: String, expires_in: u64, now: u64)
    requires
        SAFETY_MARGIN_SECS < expires_in,
        now + expires_in <= u64::MAX,
    ensures
        Credential::issued_value(access_token, expires_in, now).valid_at(now),
{
}

/// Law: the refresh decision is exact. A credential within the safety margin
/// of "now" is refreshed, and one strictly outside the margin is kept.
pub proof fn lemma_refresh_exactly_at_margin(c: Credential, now: u64)
    ensures
        now + SAFETY_MARGIN_SECS >= c.expires_at ==> !c.valid_at(now),
        now + SAFETY_MARGIN_SECS < c.expires_at ==> c.valid_at(now),
{
}

} // verus!
