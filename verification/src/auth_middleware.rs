//! Request-gate data: ban and verification responses, and the adaptive
//! rate-limit configuration keyed to a player's XP.

use vstd::prelude::*;

verus! {

/// Response body for a banned or suspended user.
#[derive(Debug)]
pub struct BanResponse {
    pub error: String,
    pub code: String,
    pub message: String,
}

/// Response body for a user whose email is unverified.
#[derive(Debug)]
pub struct VerificationResponse {
    pub error: String,
    pub code: String,
    pub message: String,
}

/// Requests per minute for each XP tier, for unauthenticated callers,
/// and for the stricter account endpoints.
#[derive(Debug, Clone)]
pub struct RateLimitConfig {
    pub xp_0_99: u32,
    pub xp_100_499: u32,
    pub xp_500_1999: u32,
    pub xp_2000_plus: u32,
    pub unauthenticated: u32,
    pub auth_endpoints: u32,
}

impl Default for RateLimitConfig {
    /// 30, 60, 120 and 240 requests per minute by rising XP; 30 for
    /// unauthenticated callers; 10 on the account endpoints, against
    /// brute force.
    fn default() -> (r: Self)
        ensures
            r.xp_0_99 == 30,
            r.xp_100_499 == 60,
            r.xp_500_1999 == 120,
            r.xp_2000_plus == 240,
            r.unauthenticated == 30,
            r.auth_endpoints == 10,
    {
        RateLimitConfig {
            xp_0_99: 30,
            xp_100_499: 60,
            xp_500_1999: 120,
            xp_2000_plus: 240,
            unauthenticated: 30,
            auth_endpoints: 10,
        }
    }
}

impl RateLimitConfig {
    /// The request budget for an authenticated user with the given XP.
    pub fn limit_for_xp(&self, xp: u32) -> (r: u32)
        ensures
            xp <= 99 ==> r == self.xp_0_99,
            100 <= xp <= 499 ==> r == self.xp_100_499,
            500 <= xp <= 1999 ==> r == self.xp_500_1999,
            xp >= 2000 ==> r == self.xp_2000_plus,
    {
        if xp <= 99 {
            self.xp_0_99
        } else if xp <= 499 {
            self.xp_100_499
        } else if xp <= 1999 {
            self.xp_500_1999
        } else {
            self.xp_2000_plus
        }
    }
}

} // verus!
