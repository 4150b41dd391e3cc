//! The authorization filter: every request that needs a caller identity
//! presents a bearer credential, a signed token whose claims carry the
//! calling service's identity and its validity window. The signature is
//! checked by the token library; the shape of the header and the temporal
//! claims are checked here, with the clock injected so the checks are
//! exact.

use vstd::prelude::*;
use crate::game::now_timestamp;

verus! {

/// The claim set expected from an authorised service's token.
pub struct ServiceClaims {
    /// The identity of the calling service.
    pub service_id: String,
    /// When the token was issued, in seconds since the epoch.
    pub iat: u64,
    /// When the token expires.
    pub exp: u64,
    /// Before when the token is not yet valid.
    pub nbf: u64,
}

/// Why a request was refused authorization.
#[derive(Clone, Copy, PartialEq, Eq, Structural, Debug)]
pub enum AuthError {
    /// No credential header was presented.
    MissingHeader,
    /// The header does not carry a bearer credential.
    WrongFormat,
    /// The token is malformed, carries the wrong claims, or its signature
    /// does not verify.
    InvalidToken,
    /// The token's expiry lies in the past.
    Expired,
    /// The token's not-before still lies in the future.
    NotYetValid,
}

/// The scheme a credential header must open with.
pub open spec fn bearer_prefix() -> Seq<char> {
    seq!['B', 'e', 'a', 'r', 'e', 'r', ' ']
}

/// A well-formed credential header: the bearer scheme followed by a
/// nonempty token.
pub open spec fn bearer_well_formed(h: Seq<char>) -> bool {
    h.len() >= 8 && h.subrange(0, 7) == bearer_prefix()
}

/// The token a well-formed credential header carries.
pub open spec fn bearer_token(h: Seq<char>) -> Seq<char> {
    h.subrange(7, h.len() as int)
}

/// Whether a claim set is current: not expired, and already valid.
pub open spec fn claims_current(c: ServiceClaims, now: u64) -> bool {
    c.nbf <= now <= c.exp
}

/// Takes the token out of a credential header, refusing a header that
/// does not carry the bearer scheme.
pub fn extract_bearer_token(header: &str) -> (r: Option<&str>)
    ensures
        match r {
            Some(t) => bearer_well_formed(header@) && t@ == bearer_token(header@),
            None => !bearer_well_formed(header@),
        },
{
    let len = header.unicode_len();
    if len < 8 {
        return None;
    }
    if header.get_char(0) == 'B' && header.get_char(1) == 'e' && header.get_char(2) == 'a'
        && header.get_char(3) == 'r' && header.get_char(4) == 'e' && header.get_char(5) == 'r'
        && header.get_char(6) == ' ' {
        proof {
            assert(header@.subrange(0, 7) =~= bearer_prefix());
        }
        Some(header.substring_char(7, len))
    } else {
        proof {
            assert(header@.subrange(0, 7) != bearer_prefix());
        }
        None
    }
}

/// Checks the temporal claims of a decoded token against the given clock:
/// a token expired at `now` is refused, as is one not yet valid.
pub fn check_claims(claims: &ServiceClaims, now: u64) -> (r: Result<(), AuthError>)
    ensures
        r is Ok <==> claims_current(*claims, now),
        r == Err::<(), AuthError>(AuthError::Expired) <==> claims.exp < now,
        r == Err::<(), AuthError>(AuthError::NotYetValid) <==> (now <= claims.exp && claims.nbf
            > now),
{
    if claims.exp < now {
        Err(AuthError::Expired)
    } else if claims.nbf > now {
        Err(AuthError::NotYetValid)
    } else {
        Ok(())
    }
}

/// What the token library decodes a credential to: the claim set of the
/// token, provided the token is a well-formed JWT whose signature
/// verifies under the secret and whose payload carries the expected
/// claims. The result is a function of the token and the secret alone.
pub uninterp spec fn jwt_claims_of(token: Seq<char>, secret: Seq<char>) -> Option<ServiceClaims>;

/// Relies on `jsonwebtoken::decode`: yields the claim set named
/// `jwt_claims_of` — `Some` exactly when the token is a well-formed JWT
/// whose signature verifies under `secret` with HMAC-SHA256 and whose
/// payload carries the expected claims with the right types. The
/// library's own temporal and audience checks are switched off, so no
/// clock is read and the result depends on the arguments alone;
/// `check_claims` checks the claims against an explicit clock instead.
#[verifier::external_body]
fn decode_claims(token: &str, secret: &str) -> (r: Option<ServiceClaims>)
    ensures
        r == jwt_claims_of(token@, secret@),
{
    let key = jsonwebtoken::DecodingKey::from_secret(secret.as_ref());
    let mut validation = jsonwebtoken::Validation::new(jsonwebtoken::Algorithm::HS256);
    validation.validate_exp = false;
    validation.validate_aud = false;
    validation.required_spec_claims = std::collections::HashSet::new();
    let v = jsonwebtoken::decode::<serde_json::Value>(token, &key, &validation).ok()?.claims;
    let service_id = v.get("service_id")?.as_str()?.to_string();
    let iat = v.get("iat")?.as_u64()?;
    let exp = v.get("exp")?.as_u64()?;
    let nbf = v.get("nbf")?.as_u64()?;
    Some(ServiceClaims { service_id, iat, exp, nbf })
}

/// Verifies a credential header against the given clock and secret. The
/// header must be present and carry the bearer scheme, the token must
/// decode to a claim set under the secret, and the claims must be
/// current; each failure is reported as its own error, and an accepted
/// request yields exactly the claim set embedded in the token.
pub fn authorize(header: Option<&str>, now: u64, secret: &str) -> (r: Result<
    ServiceClaims,
    AuthError,
>)
    ensures
        r == Err::<ServiceClaims, AuthError>(AuthError::MissingHeader) <==> header is None,
        r == Err::<ServiceClaims, AuthError>(AuthError::WrongFormat) <==> (header matches Some(h)
            && !bearer_well_formed(h@)),
        r == Err::<ServiceClaims, AuthError>(AuthError::InvalidToken) <==> (header matches Some(h)
            && bearer_well_formed(h@) && jwt_claims_of(bearer_token(h@), secret@) is None),
        r == Err::<ServiceClaims, AuthError>(AuthError::Expired) <==> ({
            &&& header matches Some(h)
            &&& bearer_well_formed(h@)
            &&& jwt_claims_of(bearer_token(h@), secret@) matches Some(c)
            &&& c.exp < now
        }),
        r == Err::<ServiceClaims, AuthError>(AuthError::NotYetValid) <==> ({
            &&& header matches Some(h)
            &&& bearer_well_formed(h@)
            &&& jwt_claims_of(bearer_token(h@), secret@) matches Some(c)
            &&& now <= c.exp
            &&& c.nbf > now
        }),
        r is Ok <==> ({
            &&& header matches Some(h)
            &&& bearer_well_formed(h@)
            &&& jwt_claims_of(bearer_token(h@), secret@) matches Some(c)
            &&& claims_current(c, now)
        }),
        r matches Ok(c) ==> (header matches Some(h) && jwt_claims_of(bearer_token(h@), secret@)
            == Some(c)),
{
    let h = match header {
        None => {
            return Err(AuthError::MissingHeader);
        },
        Some(h) => h,
    };
    let token = match extract_bearer_token(h) {
        None => {
            return Err(AuthError::WrongFormat);
        },
        Some(t) => t,
    };
    let claims = match decode_claims(token, secret) {
        None => {
            return Err(AuthError::InvalidToken);
        },
        Some(c) => c,
    };
    match check_claims(&claims, now) {
        Err(e) => Err(e),
        Ok(()) => Ok(claims),
    }
}

/// The view of the stand-in pre-shared secret the service verifies
/// tokens with.
pub open spec fn spec_jwt_secret() -> Seq<char> {
    "some_secret"@
}

/// The stand-in pre-shared secret the service verifies tokens with; a
/// production deployment provisions its own in place of this stub.
pub fn jwt_secret() -> (r: &'static str)
    ensures
        r@ == spec_jwt_secret(),
{
    "some_secret"
}

/// Authenticates a request's credential header against the service's
/// secret and the current clock. A missing or malformed header is
/// refused before any token work, a token that does not decode under the
/// service's secret is refused, and an accepted token yields exactly the
/// claim set it embeds, checked as current against the clock.
pub fn authenticate(header: Option<&str>) -> (r: Result<ServiceClaims, AuthError>)
    ensures
        r == Err::<ServiceClaims, AuthError>(AuthError::MissingHeader) <==> header is None,
        r == Err::<ServiceClaims, AuthError>(AuthError::WrongFormat) <==> (header matches Some(h)
            && !bearer_well_formed(h@)),
        r == Err::<ServiceClaims, AuthError>(AuthError::InvalidToken) <==> (header matches Some(h)
            && bearer_well_formed(h@) && jwt_claims_of(bearer_token(h@), spec_jwt_secret())
            is None),
        (r == Err::<ServiceClaims, AuthError>(AuthError::Expired) || r == Err::<
            ServiceClaims,
            AuthError,
        >(AuthError::NotYetValid)) ==> (header matches Some(h) && bearer_well_formed(h@)
            && jwt_claims_of(bearer_token(h@), spec_jwt_secret()) is Some),
        r matches Ok(c) ==> (header matches Some(h) && jwt_claims_of(
            bearer_token(h@),
            spec_jwt_secret(),
        ) == Some(c)),
{
    let now = now_timestamp();
    authorize(header, now, jwt_secret())
}

} // verus!
