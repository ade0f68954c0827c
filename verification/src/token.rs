//! The token service: issuing and verifying signed session tokens, and
//! extracting the bearer token from an `Authorization` header.
//!
//! Signing and verification are done by the `jsonwebtoken` crate (HS256);
//! the claims a well-signed token carries under a given secret are named
//! by the uninterpreted function [`token_claims`], and everything the
//! library proves about tokens is stated through that name.

use vstd::prelude::*;
use vstd::string::StrSliceExecFns;

use crate::user_model::TokenClaims;

verus! {

/// How long an issued token stays valid, in seconds.
pub const TOKEN_TTL_SECONDS: u64 = 3600;

/// The claims that a token carries under a secret: `Some((sub, iat, exp))`
/// when the token is a well-signed assertion of those claims, `None` when
/// its signature does not check out under the secret or it is not a token
/// at all.  This is a pure function of the token text and the secret
/// bytes; whether a *verification* of the token succeeds additionally
/// depends on the clock, which no contract here speaks of.
pub uninterp spec fn token_claims(token: Seq<char>, secret: Seq<u8>) -> Option<(u64, u64, u64)>;

/// Relies on `jsonwebtoken::encode` with `Header::default()` (HS256) and an
/// HMAC secret: signing succeeds for any secret and map-shaped numeric
/// claims, and the produced token carries exactly the claims handed in.
#[verifier::external_body]
fn encode_token(sub: u64, iat: u64, exp: u64, secret: &[u8]) -> (r: String)
    ensures
        token_claims(r@, secret@) == Some((sub, iat, exp)),
{
    let mut claims: std::collections::HashMap<&str, u64> = std::collections::HashMap::new();
    claims.insert("sub", sub);
    claims.insert("iat", iat);
    claims.insert("exp", exp);
    jsonwebtoken::encode(
        &jsonwebtoken::Header::default(),
        &claims,
        &jsonwebtoken::EncodingKey::from_secret(secret),
    ).expect("HS256 signing of numeric claims cannot fail")
}

/// Relies on `jsonwebtoken::decode` under `Validation::new(Algorithm::HS256)`:
/// it returns claims only for a token whose HS256 signature checks out
/// under the secret, and then returns the claims that token carries.  It
/// additionally checks the expiry against the clock, so nothing is
/// promised of when it fails.
#[verifier::external_body]
fn decode_token(token: &str, secret: &[u8]) -> (r: Option<TokenClaims>)
    ensures
        r matches Some(c) ==> token_claims(token@, secret@) == Some((c.sub, c.iat, c.exp)),
{
    let data = jsonwebtoken::decode::<std::collections::HashMap<String, u64>>(
        token,
        &jsonwebtoken::DecodingKey::from_secret(secret),
        &jsonwebtoken::Validation::new(jsonwebtoken::Algorithm::HS256),
    );
    match data {
        Ok(d) => match (d.claims.get("sub"), d.claims.get("iat"), d.claims.get("exp")) {
            (Some(s), Some(i), Some(e)) => Some(TokenClaims { sub: *s, iat: *i, exp: *e }),
            _ => None,
        },
        Err(_) => None,
    }
}

/// Relies on `chrono::Utc::now`: the current time as seconds since the
/// epoch.  Nothing can be promised of the clock's reading.
#[verifier::external_body]
fn clock_timestamp() -> (r: i64) {
    chrono::Utc::now().timestamp()
}

/// The current time as seconds since the epoch, clamped to `u64` and kept
/// small enough that adding the token lifetime cannot overflow.
pub fn current_timestamp() -> (r: u64)
    ensures
        r <= i64::MAX as u64,
{
    let t = clock_timestamp();
    if t >= 0 {
        t as u64
    } else {
        0
    }
}

/// Issues a signed token asserting `(subject = sub, issued-at = now,
/// expiry = now + TOKEN_TTL_SECONDS)`.
pub fn issue_token(sub: u64, now: u64, secret: &[u8]) -> (r: String)
    requires
        now + TOKEN_TTL_SECONDS <= u64::MAX,
    ensures
        token_claims(r@, secret@) == Some((sub, now, (now + TOKEN_TTL_SECONDS) as u64)),
{
    encode_token(sub, now, now + TOKEN_TTL_SECONDS, secret)
}

/// Verifies a token: returns claims only if the token is well signed under
/// the secret (and, at the verifier's clock, not expired); the returned
/// claims are then exactly the ones the token carries.
pub fn verify_token(token: &str, secret: &[u8]) -> (r: Option<TokenClaims>)
    ensures
        r matches Some(c) ==> token_claims(token@, secret@) == Some((c.sub, c.iat, c.exp)),
{
    decode_token(token, secret)
}

/// The token inside an `Authorization` header value: present only when
/// the value starts with the `Bearer ` scheme, and then the remainder with
/// any further leading spaces stripped.
pub open spec fn spec_bearer_token(header: Seq<char>) -> Option<Seq<char>> {
    if header.len() >= 7 && header.subrange(0, 7) == "Bearer "@ {
        Some(skip_spaces(header.subrange(7, header.len() as int)))
    } else {
        None
    }
}

/// `s` with its leading spaces removed.
pub open spec fn skip_spaces(s: Seq<char>) -> Seq<char>
    decreases s.len(),
{
    if s.len() > 0 && s[0] == ' ' {
        skip_spaces(s.subrange(1, s.len() as int))
    } else {
        s
    }
}

/// If the first `k` characters of `s` are spaces and the `k`-th is not,
/// skipping the leading spaces of `s` leaves exactly its tail from `k`.
proof fn lemma_skip_spaces_at(s: Seq<char>, k: int)
    requires
        0 <= k <= s.len(),
        forall|j: int| 0 <= j < k ==> s[j] == ' ',
        k == s.len() || s[k] != ' ',
    ensures
        skip_spaces(s) == s.subrange(k, s.len() as int),
    decreases k,
{
    if k == 0 {
        assert(s.subrange(0, s.len() as int) =~= s);
    } else {
        let t = s.subrange(1, s.len() as int);
        lemma_skip_spaces_at(t, k - 1);
        assert(t.subrange(k - 1, t.len() as int) =~= s.subrange(k, s.len() as int));
    }
}

/// Extracts the bearer token from an `Authorization` header value, per
/// [`spec_bearer_token`]: `None` for an absent or malformed scheme prefix.
pub fn extract_bearer(header: &str) -> (r: Option<String>)
    ensures
        r matches Some(t) ==> spec_bearer_token(header@) == Some(t@),
        r is None <==> spec_bearer_token(header@) is None,
{
    let n = header.unicode_len();
    proof {
        reveal_strlit("Bearer ");
    }
    if n < 7 {
        return None;
    }
    if !(header.get_char(0) == 'B' && header.get_char(1) == 'e' && header.get_char(2) == 'a'
        && header.get_char(3) == 'r' && header.get_char(4) == 'e' && header.get_char(5) == 'r'
        && header.get_char(6) == ' ') {
        proof {
            let s = header@.subrange(0, 7);
            if s == "Bearer "@ {
                assert(header@[0] == s[0] && header@[1] == s[1] && header@[2] == s[2]
                    && header@[3] == s[3] && header@[4] == s[4] && header@[5] == s[5]
                    && header@[6] == s[6]);
                assert(false);
            }
        }
        return None;
    }
    assert(header@.subrange(0, 7) =~= "Bearer "@);
    let mut i: usize = 7;
    while i < n && header.get_char(i) == ' '
        invariant
            7 <= i <= n,
            n == header@.len(),
            forall|j: int| 7 <= j < i ==> header@[j] == ' ',
        decreases n - i,
    {
        i += 1;
    }
    let token = header.substring_char(i, n).to_owned();
    proof {
        let rest = header@.subrange(7, header@.len() as int);
        lemma_skip_spaces_at(rest, i - 7);
        assert(rest.subrange(i - 7, rest.len() as int) =~= header@.subrange(
            i as int,
            header@.len() as int,
        ));
    }
    Some(token)
}

} // verus!
