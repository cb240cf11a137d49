//! Session claims and the manager that owns the signing secret.
//!
//! Token encoding and validation are the session issuer's job, performed by
//! the surrounding service; this module fixes what the claims contain and
//! how their lifetime is computed.

use vstd::prelude::*;

verus! {

/// Seconds a session stays valid: 24 hours.
pub const SESSION_LIFETIME_SECS: i64 = 86400;

/// The claims a session token carries.
#[derive(Debug)]
pub struct Claims {
    pub wallet_address: String,
    pub stake_address: Option<String>,
    /// Expiry, as a unix timestamp.
    pub exp: usize,
    /// Issuance time, as a unix timestamp.
    pub iat: usize,
}

/// Holds the secret that session tokens are signed with.
pub struct JwtManager {
    secret: String,
}

impl JwtManager {
    /// A manager around the given secret.
    pub fn new(secret: String) -> (r: Self)
        ensures
            r.spec_secret() == secret@,
    {
        JwtManager { secret }
    }

    /// The signing secret, for the token encoder at the service edge.
    pub fn secret(&self) -> (r: &String)
        ensures
            r@ == self.spec_secret(),
    {
        &self.secret
    }

    /// The view of the stored secret.
    pub closed spec fn spec_secret(&self) -> Seq<char> {
        self.secret@
    }

    /// The claims for a session granted to `wallet_address` at `now`:
    /// issued at `now`, expiring one session lifetime later.
    pub fn claims_for(
        &self,
        wallet_address: String,
        stake_address: Option<String>,
        now: i64,
    ) -> (r: Claims)
        requires
            0 <= now,
            now + SESSION_LIFETIME_SECS <= usize::MAX,
        ensures
            r.wallet_address@ == wallet_address@,
            r.stake_address == stake_address,
            r.iat == now,
            r.exp == now + SESSION_LIFETIME_SECS,
    {
        let iat = now as usize;
        let exp = iat + (SESSION_LIFETIME_SECS as usize);
        Claims { wallet_address, stake_address, exp, iat }
    }
}

} // verus!
