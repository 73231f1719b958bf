use base64::Engine;
use saml_sp::error::Error;
use saml_sp::idp::IdentityProvider;

fn sample_idp() -> IdentityProvider {
    IdentityProvider::new(
        String::from("https://idp.example/login"),
        String::from("https://idp.example/logout"),
        Vec::new(),
    )
}

const RESPONSE_XML: &str = "<samlp:Response xmlns:samlp=\"urn:oasis:names:tc:SAML:2.0:protocol\" xmlns:saml=\"urn:oasis:names:tc:SAML:2.0:assertion\" ID=\"_resp1\" Version=\"2.0\" IssueInstant=\"2021-01-01T00:00:00.000Z\" Destination=\"https://sp.example/slo\" InResponseTo=\"_req1\"><saml:Issuer>https://idp.example/metadata</saml:Issuer><samlp:Status><samlp:StatusCode Value=\"urn:oasis:names:tc:SAML:2.0:status:Success\"/></samlp:Status></samlp:Response>";

#[test]
fn logout_response_parses_all_fields() {
    let idp = sample_idp();
    let resp = idp.logout_response(RESPONSE_XML).unwrap();
    assert_eq!(resp.samlp, "urn:oasis:names:tc:SAML:2.0:protocol");
    assert_eq!(resp.saml, "urn:oasis:names:tc:SAML:2.0:assertion");
    assert_eq!(resp.id, "_resp1");
    assert_eq!(resp.version, "2.0");
    assert_eq!(resp.issue_instant, "2021-01-01T00:00:00.000Z");
    assert_eq!(resp.destination, "https://sp.example/slo");
    assert_eq!(resp.in_response_to, "_req1");
    assert_eq!(resp.issuer.value, "https://idp.example/metadata");
    assert_eq!(
        resp.status.status_code.value,
        "urn:oasis:names:tc:SAML:2.0:status:Success"
    );
}

#[test]
fn logout_response_missing_piece_is_invalid_response() {
    let idp = sample_idp();
    let err = idp
        .logout_response("<samlp:Response ID=\"x\"></samlp:Response>")
        .unwrap_err();
    assert!(matches!(err, Error::InvalidResponse(_)));
    let err = idp.logout_response("").unwrap_err();
    assert!(matches!(err, Error::InvalidResponse(_)));
}

#[test]
fn logout_response_accepts_single_quoted_attributes() {
    let idp = sample_idp();
    let xml = "<samlp:Response xmlns:samlp='urn:p' xmlns:saml='urn:a' ID='i1' Version='2.0' IssueInstant='t' Destination='d' InResponseTo='q'><saml:Issuer>iss</saml:Issuer><samlp:Status><samlp:StatusCode Value='ok'/></samlp:Status></samlp:Response>";
    let resp = idp.logout_response(xml).unwrap();
    assert_eq!(resp.samlp, "urn:p");
    assert_eq!(resp.id, "i1");
    assert_eq!(resp.status.status_code.value, "ok");
}

#[test]
fn logout_response_reads_status_code_from_its_own_element() {
    let idp = sample_idp();
    let xml = "<samlp:Response xmlns:samlp=\"p\" xmlns:saml=\"a\" ID=\"i\" Version=\"2.0\" IssueInstant=\"t\" Destination=\"d\" InResponseTo=\"q\" Value=\"WRONG\"><saml:Issuer>iss</saml:Issuer><samlp:Status><samlp:StatusCode Value=\"RIGHT\"/></samlp:Status></samlp:Response>";
    let resp = idp.logout_response(xml).unwrap();
    assert_eq!(resp.status.status_code.value, "RIGHT");
}

#[test]
fn logout_response_error_message_is_fixed() {
    let idp = sample_idp();
    let err = idp.logout_response("not xml at all").unwrap_err();
    assert!(
        matches!(err, Error::InvalidResponse(m) if m == "the response is missing a required attribute or element")
    );
}

#[test]
fn decode_results_are_the_same_across_calls() {
    let bad = "!!!not-base64!!!";
    let a = saml_sp::idp::logout_response::decode_logout_response(bad).unwrap_err();
    let b = saml_sp::idp::logout_response::decode_logout_response(bad).unwrap_err();
    assert_eq!(a.message(), b.message());
    let idp = sample_idp();
    let x = idp.logout_response("junk").unwrap_err();
    let y = idp.logout_response("junk").unwrap_err();
    assert_eq!(x.message(), y.message());
}

#[test]
fn logout_response_round_trips_through_post_binding() {
    let idp = sample_idp();
    let encoded = base64::prelude::BASE64_STANDARD.encode(RESPONSE_XML.as_bytes());
    let xml = saml_sp::idp::logout_response::decode_logout_response(&encoded).unwrap();
    let resp = idp.logout_response(&xml).unwrap();
    assert_eq!(resp.id, "_resp1");
}
