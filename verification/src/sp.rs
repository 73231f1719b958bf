use vstd::prelude::*;

pub mod authn_redirect;
pub mod metadata;

use crate::sp::authn_redirect::RequestedAuthnContext;

verus! {

/// The service provider: identity, assertion endpoints, RSA signing key
/// (DER-encoded, exclusively owned), certificate (PEM text), and the
/// optional SAML options.
pub struct ServiceProvider {
    pub entity_id: String,
    pub assert_login: String,
    pub assert_logout: String,
    pub private_key: Vec<u8>,
    pub certificate: String,
    pub name_id_format: Option<String>,
    pub relay_state: Option<String>,
    pub authn_context: Option<RequestedAuthnContext>,
}

impl ServiceProvider {
    /// Builds an immutable service-provider descriptor from already-parsed
    /// configuration values.
    pub fn new(
        entity_id: String,
        assert_login: String,
        assert_logout: String,
        private_key: Vec<u8>,
        certificate: String,
        name_id_format: Option<String>,
        relay_state: Option<String>,
        authn_context: Option<RequestedAuthnContext>,
    ) -> (r: Self)
        ensures
            r.entity_id == entity_id,
            r.assert_login == assert_login,
            r.assert_logout == assert_logout,
            r.private_key == private_key,
            r.certificate == certificate,
            r.name_id_format == name_id_format,
            r.relay_state == relay_state,
            r.authn_context == authn_context,
    {
        ServiceProvider {
            entity_id,
            assert_login,
            assert_logout,
            private_key,
            certificate,
            name_id_format,
            relay_state,
            authn_context,
        }
    }
}

} // verus!
