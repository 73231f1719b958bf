use saml_sp::sp::ServiceProvider;

const FIXED_PEM: &str = "-----BEGIN CERTIFICATE-----\nMIIBszCCARwCCQDMdEv2u4Gwoj\nANBgkqhkiG9w0BAQsFADAYMRYw\n-----END CERTIFICATE-----\n";

const CERT_BODY: &str = "\nMIIBszCCARwCCQDMdEv2u4Gwoj\nANBgkqhkiG9w0BAQsFADAYMRYw\n";

fn sample_sp() -> ServiceProvider {
    ServiceProvider::new(
        String::from("https://sp.example/metadata"),
        String::from("https://sp.example/acs"),
        String::from("https://sp.example/slo"),
        Vec::new(),
        String::from(FIXED_PEM),
        None,
        None,
        None,
    )
}

#[test]
fn metadata_document_is_exact() {
    let sp = sample_sp();
    let doc = sp.metadata_document("2021-01-02T03:04:05.678Z");
    let mut expected = String::new();
    expected.push_str("<md:EntityDescriptor xmlns:md=\"urn:oasis:names:tc:SAML:2.0:metadata\"");
    expected.push_str(" xmlns:ds=\"http://www.w3.org/2000/09/xmldsig#\"");
    expected.push_str(" entityID=\"https://sp.example/metadata\"");
    expected.push_str(" validUntil=\"2021-01-02T03:04:05.678Z\">");
    expected.push_str("<md:SPSSODescriptor protocolSupportEnumeration=\"");
    expected.push_str("urn:oasis:names:tc:SAML:1.1:protocol urn:oasis:names:tc:SAML:2.0:protocol\">");
    expected.push_str("<md:KeyDescriptor use=\"signing\">");
    expected.push_str("<ds:KeyInfo xmlns:ds=\"http://www.w3.org/2000/09/xmldsig#\">");
    expected.push_str("<ds:X509Data><ds:X509Certificate>");
    expected.push_str("\nMIIBszCCARwCCQDMdEv2u4Gwoj\nANBgkqhkiG9w0BAQsFADAYMRYw\n");
    expected.push_str("</ds:X509Certificate></ds:X509Data></ds:KeyInfo></md:KeyDescriptor>");
    expected.push_str("<md:KeyDescriptor use=\"encryption\">");
    expected.push_str("<ds:KeyInfo xmlns:ds=\"http://www.w3.org/2000/09/xmldsig#\">");
    expected.push_str("<ds:X509Data><ds:X509Certificate>");
    expected.push_str("\nMIIBszCCARwCCQDMdEv2u4Gwoj\nANBgkqhkiG9w0BAQsFADAYMRYw\n");
    expected.push_str("</ds:X509Certificate></ds:X509Data></ds:KeyInfo></md:KeyDescriptor>");
    expected.push_str("<md:SingleLogoutService Binding=\"urn:oasis:names:tc:SAML:2.0:bindings:HTTP-Redirect\"");
    expected.push_str(" Location=\"https://sp.example/slo\"/>");
    expected.push_str("<md:AssertionConsumerService Binding=\"urn:oasis:names:tc:SAML:2.0:bindings:HTTP-POST\"");
    expected.push_str(" Location=\"https://sp.example/acs\" index=\"0\"/>");
    expected.push_str("</md:SPSSODescriptor></md:EntityDescriptor>");
    assert_eq!(doc, expected);
}

#[test]
fn metadata_scenario_has_entity_and_endpoints() {
    let sp = sample_sp();
    let doc = sp.metadata();
    assert!(doc.contains("entityID=\"https://sp.example/metadata\""));
    assert_eq!(doc.matches("<md:AssertionConsumerService ").count(), 1);
    assert!(doc.contains(
        "<md:AssertionConsumerService Binding=\"urn:oasis:names:tc:SAML:2.0:bindings:HTTP-POST\" Location=\"https://sp.example/acs\" index=\"0\"/>"
    ));
    assert_eq!(doc.matches("<md:SingleLogoutService ").count(), 1);
    assert!(doc.contains(
        "<md:SingleLogoutService Binding=\"urn:oasis:names:tc:SAML:2.0:bindings:HTTP-Redirect\" Location=\"https://sp.example/slo\"/>"
    ));
}

#[test]
fn metadata_embeds_certificate_body_twice() {
    let sp = sample_sp();
    let doc = sp.metadata();
    let wrapped = format!("<ds:X509Certificate>{}</ds:X509Certificate>", CERT_BODY);
    assert_eq!(doc.matches(&wrapped).count(), 2);
}

#[test]
fn metadata_valid_until_is_one_day_out() {
    let sp = sample_sp();
    let doc = sp.metadata();
    let marker = " validUntil=\"";
    let start = doc.find(marker).unwrap() + marker.len();
    let stop = start + doc[start..].find('"').unwrap();
    let valid_until = &doc[start..stop];
    let parsed = chrono::DateTime::parse_from_rfc3339(valid_until).unwrap();
    let delta = parsed.with_timezone(&chrono::Utc) - chrono::Utc::now();
    let seconds = delta.num_seconds();
    assert!(seconds > 86400 - 120 && seconds <= 86400 + 120);
    assert!(valid_until.ends_with('Z'));
}

#[test]
fn metadata_escapes_special_characters_in_entity_id() {
    let sp = ServiceProvider::new(
        String::from("https://sp.example/meta?a=1&b=\"2\""),
        String::from("https://sp.example/acs"),
        String::from("https://sp.example/slo"),
        Vec::new(),
        String::from(FIXED_PEM),
        None,
        None,
        None,
    );
    let doc = sp.metadata();
    assert!(doc.contains("entityID=\"https://sp.example/meta?a=1&amp;b=&quot;2&quot;\""));
}
