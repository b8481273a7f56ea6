//! Records exchanged with the persistence layer.

use vstd::prelude::*;

verus! {

/// Data for creating a new user, by password or by a sign-in provider.
#[derive(Debug, Clone)]
pub struct NewUser {
    pub email: String,
    pub username: Option<String>,
    /// Empty for users who sign in through a provider.
    pub password_hash: String,
}

} // verus!
