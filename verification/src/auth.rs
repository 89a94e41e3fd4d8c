use vstd::prelude::*;

verus! {

/// How long an issued token stays valid, in seconds.
pub const TOKEN_LIFETIME_SECS: usize = 3600;

/// A freshly issued sign-in nonce.
pub struct GenerateNonceResponse {
    pub message: String,
}

/// A signed sign-in message presented for verification.
pub struct VerifySiweAndCreateUserRequest {
    pub message: String,
    pub signature: String,
    pub address: String,
}

/// The authenticated subject and expiry an identity token carries.  The
/// engine never verifies identity itself; the identity collaborator supplies
/// a `Claims` value with every request.
pub struct Claims {
    pub exp: usize,
    pub sub: String,
}

impl Claims {
    /// Claims for `sub` issued at `now_secs`, valid for the token lifetime.
    pub fn issue(sub: String, now_secs: usize) -> (c: Claims)
        requires
            now_secs + TOKEN_LIFETIME_SECS <= usize::MAX,
        ensures
            c.sub == sub,
            c.exp == now_secs + TOKEN_LIFETIME_SECS,
    {
        Claims { exp: now_secs + TOKEN_LIFETIME_SECS, sub }
    }

    /// Whether the claims are still valid at `now_secs`.
    pub fn valid_at(&self, now_secs: usize) -> (r: bool)
        ensures
            r == (now_secs < self.exp),
    {
        now_secs < self.exp
    }
}

/// Failures of the identity collaborator.
#[derive(Clone, Copy, Debug, PartialEq, Eq, Structural)]
pub enum AuthError {
    WrongCredentials,
    MissingCredentials,
    TokenCreation,
    InvalidToken,
}

/// A successfully issued access token.
pub struct AuthBody {
    pub access_token: String,
}

} // verus!
