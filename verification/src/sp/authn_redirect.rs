//! The AuthnRequest pipeline: serialize the request, raw-deflate it, base64
//! it, assemble the login query string in protocol order, and sign that
//! exact string with RSA-SHA256.

use vstd::prelude::*;
use vstd::utf8::encode_utf8;

use crate::codec::{
    b64_encode, b64_of, deflate, deflate_of, deflate_ok, hex_lower, is_rfc3339_millis_utc,
    lemma_hex_lower_len, now_utc_rfc3339_millis, random_bytes_21, rsa_sha256_of, rsa_sha256_sign,
    rsa_sign_ok, spec_hex_lower,
};
use crate::error::Error;
use crate::idp::IdentityProvider;
use crate::sp::ServiceProvider;
use crate::strutil::{escape_xml, find_str, spec_escape, spec_find, spec_urlenc_str, urlencode};

verus! {

/// The requested authentication-context class reference.
pub struct AuthnContextClassRef {
    pub value: String,
}

/// The optional requested authentication context of an AuthnRequest.
pub struct RequestedAuthnContext {
    pub comparison: String,
    pub authn_context_class_ref: AuthnContextClassRef,
}

/// The NameIDPolicy element of an AuthnRequest.
pub struct NameIDPolicy {
    pub format: String,
    pub allow_create: String,
}

/// The issuer of an AuthnRequest.
pub struct Issuer {
    pub value: String,
}

/// The transient, serialization-only AuthnRequest record, in protocol field
/// order.
pub struct AuthnRequest {
    pub samlp: String,
    pub saml: String,
    pub id: String,
    pub version: String,
    pub issue_instant: String,
    pub destination: String,
    pub protocol_binding: String,
    pub assertion_consumer_service_url: String,
    pub issuer: Issuer,
    pub name_id_policy: NameIDPolicy,
    pub requested_authn_context: Option<RequestedAuthnContext>,
}

pub open spec fn spec_rac_xml(comparison: Seq<char>, class_ref: Seq<char>) -> Seq<char> {
    "<samlp:RequestedAuthnContext Comparison=\""@ + spec_escape(comparison) + "\">"@
        + ("<saml:AuthnContextClassRef>"@ + spec_escape(class_ref)
        + "</saml:AuthnContextClassRef>"@) + "</samlp:RequestedAuthnContext>"@
}

impl RequestedAuthnContext {
    pub open spec fn spec_xml(&self) -> Seq<char> {
        spec_rac_xml(self.comparison@, self.authn_context_class_ref.value@)
    }

    /// Serializes the `samlp:RequestedAuthnContext` element.
    pub fn to_xml(&self) -> (r: String)
        ensures
            r@ == self.spec_xml(),
    {
        let mut out = String::from_str("<samlp:RequestedAuthnContext Comparison=\"");
        out.append(escape_xml(self.comparison.as_str()).as_str());
        out.append("\">");
        let mut inner = String::from_str("<saml:AuthnContextClassRef>");
        inner.append(escape_xml(self.authn_context_class_ref.value.as_str()).as_str());
        inner.append("</saml:AuthnContextClassRef>");
        out.append(inner.as_str());
        out.append("</samlp:RequestedAuthnContext>");
        out
    }
}

pub open spec fn spec_name_id_policy_xml(format: Seq<char>, allow_create: Seq<char>) -> Seq<char> {
    "<samlp:NameIDPolicy Format=\""@ + spec_escape(format) + "\" AllowCreate=\""@ + spec_escape(
        allow_create,
    ) + "\"/>"@
}

impl NameIDPolicy {
    pub open spec fn spec_xml(&self) -> Seq<char> {
        spec_name_id_policy_xml(self.format@, self.allow_create@)
    }

    /// Serializes the `samlp:NameIDPolicy` element.
    pub fn to_xml(&self) -> (r: String)
        ensures
            r@ == self.spec_xml(),
    {
        let mut out = String::from_str("<samlp:NameIDPolicy Format=\"");
        out.append(escape_xml(self.format.as_str()).as_str());
        out.append("\" AllowCreate=\"");
        out.append(escape_xml(self.allow_create.as_str()).as_str());
        out.append("\"/>");
        out
    }
}

pub open spec fn spec_issuer_xml(value: Seq<char>) -> Seq<char> {
    "<saml:Issuer>"@ + spec_escape(value) + "</saml:Issuer>"@
}

impl Issuer {
    pub open spec fn spec_xml(&self) -> Seq<char> {
        spec_issuer_xml(self.value@)
    }

    /// Serializes the `saml:Issuer` element.
    pub fn to_xml(&self) -> (r: String)
        ensures
            r@ == self.spec_xml(),
    {
        let mut out = String::from_str("<saml:Issuer>");
        out.append(escape_xml(self.value.as_str()).as_str());
        out.append("</saml:Issuer>");
        out
    }
}

impl AuthnRequest {
    pub open spec fn spec_xml(&self) -> Seq<char> {
        "<samlp:AuthnRequest xmlns:samlp=\""@ + spec_escape(self.samlp@) + "\" xmlns:saml=\""@
            + spec_escape(self.saml@) + "\" ID=\""@ + spec_escape(self.id@) + "\" Version=\""@
            + spec_escape(self.version@) + "\" IssueInstant=\""@ + spec_escape(self.issue_instant@)
            + "\" Destination=\""@ + spec_escape(self.destination@) + "\" ProtocolBinding=\""@
            + spec_escape(self.protocol_binding@) + "\" AssertionConsumerServiceURL=\""@
            + spec_escape(self.assertion_consumer_service_url@) + "\">"@ + self.issuer.spec_xml()
            + self.name_id_policy.spec_xml() + (match self.requested_authn_context {
            Some(c) => c.spec_xml(),
            None => Seq::<char>::empty(),
        }) + "</samlp:AuthnRequest>"@
    }

    /// Serializes the whole `samlp:AuthnRequest` document, omitting the
    /// requested context entirely when it is not configured.
    pub fn to_xml(&self) -> (r: String)
        ensures
            r@ == self.spec_xml(),
    {
        let mut out = String::from_str("<samlp:AuthnRequest xmlns:samlp=\"");
        out.append(escape_xml(self.samlp.as_str()).as_str());
        out.append("\" xmlns:saml=\"");
        out.append(escape_xml(self.saml.as_str()).as_str());
        out.append("\" ID=\"");
        out.append(escape_xml(self.id.as_str()).as_str());
        out.append("\" Version=\"");
        out.append(escape_xml(self.version.as_str()).as_str());
        out.append("\" IssueInstant=\"");
        out.append(escape_xml(self.issue_instant.as_str()).as_str());
        out.append("\" Destination=\"");
        out.append(escape_xml(self.destination.as_str()).as_str());
        out.append("\" ProtocolBinding=\"");
        out.append(escape_xml(self.protocol_binding.as_str()).as_str());
        out.append("\" AssertionConsumerServiceURL=\"");
        out.append(escape_xml(self.assertion_consumer_service_url.as_str()).as_str());
        out.append("\">");
        out.append(self.issuer.to_xml().as_str());
        out.append(self.name_id_policy.to_xml().as_str());
        match &self.requested_authn_context {
            Some(c) => {
                out.append(c.to_xml().as_str());
            },
            None => {},
        }
        out.append("</samlp:AuthnRequest>");
        out
    }
}

/// A fresh request identifier: an underscore, then the 21 random bytes in
/// lowercase hexadecimal. The underscore keeps the XML ID from starting
/// with a digit.
pub open spec fn spec_request_id(random_bytes: Seq<u8>) -> Seq<char> {
    "_"@ + spec_hex_lower(random_bytes)
}

fn request_id(random_bytes: &[u8]) -> (r: String)
    ensures
        r@ == spec_request_id(random_bytes@),
{
    let mut out = String::from_str("_");
    out.append(hex_lower(random_bytes).as_str());
    out
}

/// Generates a fresh request identifier from 21 random bytes: 43 characters
/// long and never starting with a digit.
pub fn fresh_request_id() -> (r: String)
    ensures
        exists|rb: Seq<u8>| rb.len() == 21 && r@ == spec_request_id(rb),
        r@.len() == 43,
        r@[0] == '_',
{
    let rb = random_bytes_21();
    let r = request_id(rb.as_slice());
    proof {
        reveal_strlit("_");
        lemma_hex_lower_len(rb@);
        assert(rb@.len() == 21 && r@ == spec_request_id(rb@));
    }
    r
}

/// The NameIDPolicy format: as configured, or the protocol's unspecified
/// format by default.
pub open spec fn spec_name_id_format(sp: ServiceProvider) -> Seq<char> {
    match sp.name_id_format {
        Some(f) => f@,
        None => "urn:oasis:names:tc:SAML:1.1:nameid-format:unspecified"@,
    }
}

/// The serialized AuthnRequest document for the given SP, IdP, random id
/// bytes, and issue instant.
pub open spec fn spec_authn_request_xml(
    sp: ServiceProvider,
    idp: IdentityProvider,
    rb: Seq<u8>,
    t: Seq<char>,
) -> Seq<char> {
    "<samlp:AuthnRequest xmlns:samlp=\""@ + spec_escape("urn:oasis:names:tc:SAML:2.0:protocol"@)
        + "\" xmlns:saml=\""@ + spec_escape("urn:oasis:names:tc:SAML:2.0:assertion"@) + "\" ID=\""@
        + spec_escape(spec_request_id(rb)) + "\" Version=\""@ + spec_escape("2.0"@)
        + "\" IssueInstant=\""@ + spec_escape(t) + "\" Destination=\""@ + spec_escape(idp.login@)
        + "\" ProtocolBinding=\""@ + spec_escape("urn:oasis:names:tc:SAML:2.0:bindings:HTTP-POST"@)
        + "\" AssertionConsumerServiceURL=\""@ + spec_escape(sp.assert_login@) + "\">"@
        + spec_issuer_xml(sp.entity_id@) + spec_name_id_policy_xml(spec_name_id_format(sp), "true"@)
        + (match sp.authn_context {
        Some(c) => c.spec_xml(),
        None => Seq::<char>::empty(),
    }) + "</samlp:AuthnRequest>"@
}

/// The signature algorithm of the redirect binding.
pub open spec fn spec_sig_alg() -> Seq<char> {
    "http://www.w3.org/2001/04/xmldsig-more#rsa-sha256"@
}

/// The query string that is signed: `SAMLRequest`, then `RelayState` only
/// when configured, then `SigAlg`, in exactly that order.
pub open spec fn spec_authn_query(
    sp: ServiceProvider,
    idp: IdentityProvider,
    rb: Seq<u8>,
    t: Seq<char>,
) -> Seq<char> {
    "SAMLRequest="@ + spec_urlenc_str(
        b64_of(deflate_of(encode_utf8(spec_authn_request_xml(sp, idp, rb, t)))),
    ) + (match sp.relay_state {
        Some(rs) => "&RelayState="@ + spec_urlenc_str(rs@),
        None => Seq::<char>::empty(),
    }) + "&SigAlg="@ + spec_urlenc_str(spec_sig_alg())
}

/// The position of the first `#` in the login URL, or its length.
pub open spec fn spec_hash_pos(u: Seq<char>) -> int {
    match spec_find(u, "#"@, 0) {
        Some(i) => i,
        None => u.len() as int,
    }
}

/// Where the login URL's own query (and anything after) is cut off before
/// the redirect parameters are appended.
pub open spec fn spec_cut_pos(u: Seq<char>) -> int {
    match spec_find(u, "?"@, 0) {
        Some(q) => if q < spec_hash_pos(u) {
            q
        } else {
            spec_hash_pos(u)
        },
        None => spec_hash_pos(u),
    }
}

/// The signed redirect URL: the login URL with its query replaced by the
/// signed query string plus the `Signature` parameter, the fragment kept.
pub open spec fn spec_authn_redirect_url(
    sp: ServiceProvider,
    idp: IdentityProvider,
    rb: Seq<u8>,
    t: Seq<char>,
) -> Seq<char> {
    idp.login@.subrange(0, spec_cut_pos(idp.login@)) + "?"@ + spec_authn_query(sp, idp, rb, t)
        + "&Signature="@ + spec_urlenc_str(
        b64_of(rsa_sha256_of(sp.private_key@, encode_utf8(spec_authn_query(sp, idp, rb, t)))),
    ) + idp.login@.subrange(spec_hash_pos(idp.login@), idp.login@.len() as int)
}

/// The full outcome of redirect building for given id bytes and instant: a
/// compression stream failure gives `IOError`; with compression good, a
/// signing-key failure gives `InvalidCert`; and with both good the result is
/// exactly the specified signed URL - so a usable key forces a URL, and no
/// partial URL is ever returned.
pub open spec fn spec_redirect_outcome(
    sp: ServiceProvider,
    idp: IdentityProvider,
    rb: Seq<u8>,
    t: Seq<char>,
    r: Result<String, Error>,
) -> bool {
    let bs = encode_utf8(spec_authn_request_xml(sp, idp, rb, t));
    &&& !deflate_ok(bs) ==> (r matches Err(e) && e matches Error::IOError(_))
    &&& deflate_ok(bs) && !rsa_sign_ok(sp.private_key@) ==> (r matches Err(e) && e matches
        Error::InvalidCert(_))
    &&& deflate_ok(bs) && rsa_sign_ok(sp.private_key@) ==> (r matches Ok(u) && u@
        == spec_authn_redirect_url(sp, idp, rb, t))
}

impl ServiceProvider {
    /// Builds the signed redirect URL from explicit id bytes and issue
    /// instant; the outcome is total: the exact specified URL when the
    /// compression stream and the signing key are good, `IOError` or
    /// `InvalidCert` respectively when one is not. The URL's `Signature`
    /// parameter signs the query string before it.
    pub fn authn_redirect_at(
        &self,
        idp: &IdentityProvider,
        random_bytes: &[u8],
        issue_instant: &str,
    ) -> (r: Result<String, Error>)
        ensures
            spec_redirect_outcome(*self, *idp, random_bytes@, issue_instant@, r),
            r matches Ok(u) ==> u@ == spec_authn_redirect_url(
                *self,
                *idp,
                random_bytes@,
                issue_instant@,
            ),
            r matches Err(e) ==> (e matches Error::IOError(_) || e matches Error::InvalidCert(_)),
    {
        let authn = AuthnRequest {
            samlp: String::from_str("urn:oasis:names:tc:SAML:2.0:protocol"),
            saml: String::from_str("urn:oasis:names:tc:SAML:2.0:assertion"),
            id: request_id(random_bytes),
            version: String::from_str("2.0"),
            issue_instant: issue_instant.to_owned(),
            destination: idp.login.clone(),
            protocol_binding: String::from_str("urn:oasis:names:tc:SAML:2.0:bindings:HTTP-POST"),
            assertion_consumer_service_url: self.assert_login.clone(),
            issuer: Issuer { value: self.entity_id.clone() },
            name_id_policy: NameIDPolicy {
                format: match &self.name_id_format {
                    Some(f) => f.clone(),
                    None => String::from_str("urn:oasis:names:tc:SAML:1.1:nameid-format:unspecified"),
                },
                allow_create: String::from_str("true"),
            },
            requested_authn_context: match &self.authn_context {
                Some(c) => Some(
                    RequestedAuthnContext {
                        comparison: c.comparison.clone(),
                        authn_context_class_ref: AuthnContextClassRef {
                            value: c.authn_context_class_ref.value.clone(),
                        },
                    },
                ),
                None => None,
            },
        };
        let xml = authn.to_xml();
        proof {
            assert(xml@ == spec_authn_request_xml(*self, *idp, random_bytes@, issue_instant@));
        }
        let deflated = match deflate(xml.as_str().as_bytes()) {
            Ok(d) => d,
            Err(e) => {
                return Err(e);
            },
        };
        let saml_request = b64_encode(deflated.as_slice());
        let mut query = String::from_str("SAMLRequest=");
        query.append(urlencode(saml_request.as_str()).as_str());
        match &self.relay_state {
            Some(rs) => {
                query.append("&RelayState=");
                query.append(urlencode(rs.as_str()).as_str());
            },
            None => {},
        }
        query.append("&SigAlg=");
        query.append(urlencode("http://www.w3.org/2001/04/xmldsig-more#rsa-sha256").as_str());
        proof {
            assert(query@ =~= spec_authn_query(*self, *idp, random_bytes@, issue_instant@));
        }
        let sig = match rsa_sha256_sign(self.private_key.as_slice(), query.as_str().as_bytes()) {
            Ok(s) => s,
            Err(e) => {
                return Err(e);
            },
        };
        let sig_b64 = b64_encode(sig.as_slice());
        let login = self.build_login_url(idp, &query, &sig_b64);
        proof {
            assert(login@ =~= spec_authn_redirect_url(
                *self,
                *idp,
                random_bytes@,
                issue_instant@,
            ));
        }
        Ok(login)
    }

    /// Splices the signed query and the encoded signature into the login
    /// URL, dropping the URL's own query and keeping its fragment.
    fn build_login_url(&self, idp: &IdentityProvider, query: &String, sig_b64: &String) -> (r:
        String)
        ensures
            r@ == idp.login@.subrange(0, spec_cut_pos(idp.login@)) + "?"@ + query@ + "&Signature="@
                + spec_urlenc_str(sig_b64@) + idp.login@.subrange(
                spec_hash_pos(idp.login@),
                idp.login@.len() as int,
            ),
    {
        proof {
            reveal_strlit("#");
            reveal_strlit("?");
        }
        let login = idp.login.as_str();
        let len = login.unicode_len();
        let h = match find_str(login, "#", 0) {
            Some(i) => i,
            None => len,
        };
        let q = match find_str(login, "?", 0) {
            Some(i) => i,
            None => len,
        };
        let cut = if q < h {
            q
        } else {
            h
        };
        let mut url = login.substring_char(0, cut).to_owned();
        url.append("?");
        url.append(query.as_str());
        url.append("&Signature=");
        url.append(urlencode(sig_b64.as_str()).as_str());
        url.append(login.substring_char(h, len));
        url
    }

    /// Builds a signed authentication-request redirect URL for the given
    /// IdP, from fresh random id bytes and the clock's RFC3339 instant. The
    /// outcome is total for those draws: the exact specified URL - whose
    /// `Signature` parameter signs the query string before it - when the
    /// compression stream and the signing key are good, `IOError` or
    /// `InvalidCert` respectively when one is not.
    pub fn authn_redirect(&self, idp: &IdentityProvider) -> (r: Result<String, Error>)
        ensures
            exists|rb: Seq<u8>, t: Seq<char>|
                rb.len() == 21 && is_rfc3339_millis_utc(t) && spec_redirect_outcome(
                    *self,
                    *idp,
                    rb,
                    t,
                    r,
                ),
            r matches Ok(u) ==> exists|rb: Seq<u8>, t: Seq<char>|
                rb.len() == 21 && is_rfc3339_millis_utc(t) && u@ == spec_authn_redirect_url(
                    *self,
                    *idp,
                    rb,
                    t,
                ),
            r matches Err(e) ==> (e matches Error::IOError(_) || e matches Error::InvalidCert(_)),
    {
        let rb = random_bytes_21();
        let t = now_utc_rfc3339_millis();
        let r = self.authn_redirect_at(idp, rb.as_slice(), t.as_str());
        proof {
            assert(rb@.len() == 21 && is_rfc3339_millis_utc(t@) && spec_redirect_outcome(
                *self,
                *idp,
                rb@,
                t@,
                r,
            ));
            match &r {
                Ok(u) => {
                    assert(u@ == spec_authn_redirect_url(*self, *idp, rb@, t@));
                },
                Err(_) => {},
            }
        }
        r
    }
}

} // verus!
