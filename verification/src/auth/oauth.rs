//! Data for the third-party sign-in flow.

use vstd::prelude::*;
use vstd::string::*;

use crate::auth::password::{hex_encode, lemma_hex_of_len, random_bytes};

verus! {

/// What an identity provider reports of a user.
#[derive(Debug, Clone)]
pub struct OAuthUserInfo {
    /// The provider's own id for the user.
    pub provider_user_id: String,
    pub email: String,
    pub name: Option<String>,
    pub avatar_url: Option<String>,
    /// The provider has verified the email.
    pub email_verified: bool,
}

/// A provider's client configuration.
#[derive(Clone)]
pub struct OAuthConfig {
    pub client_id: String,
    pub client_secret: String,
    pub redirect_uri: String,
}

/// The state parameter of a sign-in flow: a random nonce against
/// cross-site request forgery, and where to land afterwards.
#[derive(Debug)]
pub struct OAuthState {
    pub nonce: String,
    pub redirect_to: Option<String>,
}

impl OAuthState {
    /// A fresh state: sixteen random bytes as 32 hex characters.
    pub fn new(redirect_to: Option<String>) -> (r: Self)
        ensures
            r.nonce@.len() == 32,
            r.redirect_to == redirect_to,
    {
        let bytes = random_bytes(16);
        let nonce = hex_encode(&bytes);
        proof {
            lemma_hex_of_len(bytes@);
        }
        OAuthState { nonce, redirect_to }
    }
}

} // verus!
