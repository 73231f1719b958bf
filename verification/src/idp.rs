use vstd::prelude::*;

pub mod logout_response;

verus! {

/// A trusted identity provider: its login and logout endpoints and its
/// certificates (PEM texts), immutable after construction.
pub struct IdentityProvider {
    pub login: String,
    pub logout: String,
    pub certificates: Vec<String>,
}

impl IdentityProvider {
    /// Builds an immutable identity-provider descriptor from already-parsed
    /// configuration values.
    pub fn new(login: String, logout: String, certificates: Vec<String>) -> (r: Self)
        ensures
            r.login == login,
            r.logout == logout,
            r.certificates == certificates,
    {
        IdentityProvider { login, logout, certificates }
    }
}

} // verus!
