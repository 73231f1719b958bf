use base64::Engine;
use base64::prelude::BASE64_STANDARD;
use saml_sp::error::Error;
use saml_sp::idp::IdentityProvider;
use saml_sp::sp::ServiceProvider;
use saml_sp::sp::authn_redirect::{
    AuthnContextClassRef, RequestedAuthnContext, fresh_request_id,
};
use std::collections::HashSet;
use std::io::Read;

fn percent_decode(s: &str) -> Vec<u8> {
    let b = s.as_bytes();
    let mut out = Vec::new();
    let mut i = 0;
    while i < b.len() {
        if b[i] == b'%' {
            out.push(u8::from_str_radix(&s[i + 1..i + 3], 16).unwrap());
            i += 3;
        } else if b[i] == b'+' {
            out.push(b' ');
            i += 1;
        } else {
            out.push(b[i]);
            i += 1;
        }
    }
    out
}

fn sample_sp(
    key: Vec<u8>,
    relay_state: Option<String>,
    authn_context: Option<RequestedAuthnContext>,
) -> ServiceProvider {
    ServiceProvider::new(
        String::from("https://sp.example/metadata"),
        String::from("https://sp.example/acs"),
        String::from("https://sp.example/slo"),
        key,
        String::from("-----BEGIN CERTIFICATE-----\nABCD\n-----END CERTIFICATE-----\n"),
        None,
        relay_state,
        authn_context,
    )
}

fn sample_idp() -> IdentityProvider {
    IdentityProvider::new(
        String::from("https://idp.example/login"),
        String::from("https://idp.example/logout"),
        Vec::new(),
    )
}

fn rsa_key() -> (openssl::pkey::PKey<openssl::pkey::Private>, Vec<u8>) {
    let rsa = openssl::rsa::Rsa::generate(2048).unwrap();
    let der = rsa.private_key_to_der().unwrap();
    (openssl::pkey::PKey::from_rsa(rsa).unwrap(), der)
}

#[test]
fn authn_redirect_signature_verifies_over_query() {
    let (pkey, der) = rsa_key();
    let sp = sample_sp(der, Some(String::from("state & more")), None);
    let idp = sample_idp();
    let url = sp.authn_redirect(&idp).unwrap();
    let qpos = url.find('?').unwrap();
    let query = &url[qpos + 1..];
    let sig_marker = "&Signature=";
    let sig_pos = query.rfind(sig_marker).unwrap();
    let signed_part = &query[..sig_pos];
    let sig_value = &query[sig_pos + sig_marker.len()..];
    let sig = BASE64_STANDARD
        .decode(percent_decode(sig_value))
        .unwrap();
    let mut verifier =
        openssl::sign::Verifier::new(openssl::hash::MessageDigest::sha256(), &pkey).unwrap();
    verifier.update(signed_part.as_bytes()).unwrap();
    assert!(verifier.verify(&sig).unwrap());
}

#[test]
fn authn_redirect_parameters_come_in_protocol_order() {
    let (_, der) = rsa_key();
    let sp = sample_sp(der, Some(String::from("abc")), None);
    let idp = sample_idp();
    let url = sp.authn_redirect(&idp).unwrap();
    assert!(url.starts_with("https://idp.example/login?SAMLRequest="));
    let relay = url.find("&RelayState=abc&").unwrap();
    let sigalg = url
        .find("&SigAlg=http%3A%2F%2Fwww.w3.org%2F2001%2F04%2Fxmldsig-more%23rsa-sha256")
        .unwrap();
    let sig = url.find("&Signature=").unwrap();
    assert!(relay < sigalg && sigalg < sig);
}

#[test]
fn authn_redirect_replaces_existing_query_and_keeps_fragment() {
    let (_, der) = rsa_key();
    let sp = sample_sp(der, None, None);
    let idp = IdentityProvider::new(
        String::from("https://idp.example/login?old=1#frag"),
        String::from("https://idp.example/logout"),
        Vec::new(),
    );
    let url = sp.authn_redirect(&idp).unwrap();
    assert!(url.starts_with("https://idp.example/login?SAMLRequest="));
    assert!(url.ends_with("#frag"));
    assert!(!url.contains("old=1"));
}

#[test]
fn saml_request_inflates_to_the_authn_request_document() {
    let (_, der) = rsa_key();
    let sp = sample_sp(der, None, None);
    let idp = sample_idp();
    let url = sp.authn_redirect(&idp).unwrap();
    let start = url.find("SAMLRequest=").unwrap() + "SAMLRequest=".len();
    let stop = start + url[start..].find('&').unwrap();
    let deflated = BASE64_STANDARD
        .decode(percent_decode(&url[start..stop]))
        .unwrap();
    let mut inflater = flate2::read::DeflateDecoder::new(deflated.as_slice());
    let mut xml = String::new();
    inflater.read_to_string(&mut xml).unwrap();
    assert!(xml.starts_with(
        "<samlp:AuthnRequest xmlns:samlp=\"urn:oasis:names:tc:SAML:2.0:protocol\" xmlns:saml=\"urn:oasis:names:tc:SAML:2.0:assertion\" ID=\"_"
    ));
    assert!(xml.contains(" Version=\"2.0\""));
    assert!(xml.contains(" Destination=\"https://idp.example/login\""));
    assert!(xml.contains(" ProtocolBinding=\"urn:oasis:names:tc:SAML:2.0:bindings:HTTP-POST\""));
    assert!(xml.contains(" AssertionConsumerServiceURL=\"https://sp.example/acs\""));
    assert!(xml.contains("<saml:Issuer>https://sp.example/metadata</saml:Issuer>"));
    assert!(xml.contains(
        "<samlp:NameIDPolicy Format=\"urn:oasis:names:tc:SAML:1.1:nameid-format:unspecified\" AllowCreate=\"true\"/>"
    ));
    assert!(!xml.contains("RequestedAuthnContext"));
    assert!(xml.ends_with("</samlp:AuthnRequest>"));
}

#[test]
fn requested_authn_context_is_serialized_when_configured() {
    let (_, der) = rsa_key();
    let context = RequestedAuthnContext {
        comparison: String::from("exact"),
        authn_context_class_ref: AuthnContextClassRef {
            value: String::from("urn:oasis:names:tc:SAML:2.0:ac:classes:PasswordProtectedTransport"),
        },
    };
    let sp = sample_sp(der, None, Some(context));
    let idp = sample_idp();
    let url = sp.authn_redirect(&idp).unwrap();
    let start = url.find("SAMLRequest=").unwrap() + "SAMLRequest=".len();
    let stop = start + url[start..].find('&').unwrap();
    let deflated = BASE64_STANDARD
        .decode(percent_decode(&url[start..stop]))
        .unwrap();
    let mut inflater = flate2::read::DeflateDecoder::new(deflated.as_slice());
    let mut xml = String::new();
    inflater.read_to_string(&mut xml).unwrap();
    assert!(xml.contains(
        "<samlp:RequestedAuthnContext Comparison=\"exact\"><saml:AuthnContextClassRef>urn:oasis:names:tc:SAML:2.0:ac:classes:PasswordProtectedTransport</saml:AuthnContextClassRef></samlp:RequestedAuthnContext>"
    ));
}

#[test]
fn relay_state_is_form_urlencoded() {
    let (_, der) = rsa_key();
    let sp = sample_sp(der, Some(String::from("state & caf\u{e9}/x")), None);
    let idp = sample_idp();
    let url = sp.authn_redirect(&idp).unwrap();
    assert!(url.contains("&RelayState=state+%26+caf%C3%A9%2Fx&SigAlg="));
}

#[test]
fn configured_name_id_format_is_used() {
    let (_, der) = rsa_key();
    let sp = ServiceProvider::new(
        String::from("https://sp.example/metadata"),
        String::from("https://sp.example/acs"),
        String::from("https://sp.example/slo"),
        der,
        String::from("-----BEGIN CERTIFICATE-----\nABCD\n-----END CERTIFICATE-----\n"),
        Some(String::from("urn:oasis:names:tc:SAML:2.0:nameid-format:persistent")),
        None,
        None,
    );
    let idp = sample_idp();
    let url = sp.authn_redirect(&idp).unwrap();
    let start = url.find("SAMLRequest=").unwrap() + "SAMLRequest=".len();
    let stop = start + url[start..].find('&').unwrap();
    let deflated = BASE64_STANDARD
        .decode(percent_decode(&url[start..stop]))
        .unwrap();
    let mut inflater = flate2::read::DeflateDecoder::new(deflated.as_slice());
    let mut xml = String::new();
    inflater.read_to_string(&mut xml).unwrap();
    assert!(xml.contains(
        "<samlp:NameIDPolicy Format=\"urn:oasis:names:tc:SAML:2.0:nameid-format:persistent\" AllowCreate=\"true\"/>"
    ));
}

#[test]
fn authn_redirect_with_bad_key_is_invalid_cert() {
    let sp = sample_sp(vec![1, 2, 3], None, None);
    let idp = sample_idp();
    let err = sp.authn_redirect(&idp).unwrap_err();
    assert!(matches!(err, Error::InvalidCert(_)));
}

#[test]
fn request_ids_are_unique_and_never_start_with_a_digit() {
    let mut seen = HashSet::new();
    for _ in 0..10000 {
        let id = fresh_request_id();
        assert_eq!(id.len(), 43);
        assert!(id.starts_with('_'));
        assert!(id[1..].chars().all(|c| c.is_ascii_hexdigit()));
        assert!(seen.insert(id));
    }
}
