use saml_sp::get_cert_data;

const FIXED_PEM: &str = "-----BEGIN CERTIFICATE-----\nMIIBszCCARwCCQDMdEv2u4GwojANBgkqhkiG9w0BAQsFADAYMRYwFAYDVQQDDA1z\ncC5leGFtcGxlLjEwHhcNMjAwMTAxMDAwMDAwWhcNMzAwMTAxMDAwMDAwWjAYMRYw\nFAYDVQQDDA1zcC5leGFtcGxlLjEw\n-----END CERTIFICATE-----\n";

#[test]
fn cert_data_extracts_between_markers() {
    let body = get_cert_data(FIXED_PEM);
    assert_eq!(
        body,
        "\nMIIBszCCARwCCQDMdEv2u4GwojANBgkqhkiG9w0BAQsFADAYMRYwFAYDVQQDDA1z\ncC5leGFtcGxlLjEwHhcNMjAwMTAxMDAwMDAwWhcNMzAwMTAxMDAwMDAwWjAYMRYw\nFAYDVQQDDA1zcC5leGFtcGxlLjEw\n"
    );
}

#[test]
fn cert_data_no_markers_gives_empty() {
    assert_eq!(get_cert_data("no certificate here"), "");
    assert_eq!(get_cert_data(""), "");
}

#[test]
fn cert_data_begin_without_end_gives_empty() {
    assert_eq!(
        get_cert_data("-----BEGIN CERTIFICATE-----\nabcdef\n"),
        ""
    );
}

#[test]
fn cert_data_takes_first_certificate() {
    let two = "-----BEGIN CERTIFICATE-----first-----END CERTIFICATE----------BEGIN CERTIFICATE-----second-----END CERTIFICATE-----";
    assert_eq!(get_cert_data(two), "first");
}

#[test]
fn cert_data_skips_unclosed_marker() {
    let text = "-----BEGIN CERTIFICATE-----oops-----NOT END-----\n-----BEGIN CERTIFICATE-----real-----END CERTIFICATE-----";
    assert_eq!(get_cert_data(text), "real");
}

#[test]
fn cert_data_of_real_certificate_matches_markers() {
    let rsa = openssl::rsa::Rsa::generate(2048).unwrap();
    let pkey = openssl::pkey::PKey::from_rsa(rsa).unwrap();
    let mut name = openssl::x509::X509NameBuilder::new().unwrap();
    name.append_entry_by_text("CN", "sp.example").unwrap();
    let name = name.build();
    let mut builder = openssl::x509::X509Builder::new().unwrap();
    builder.set_version(2).unwrap();
    builder.set_subject_name(&name).unwrap();
    builder.set_issuer_name(&name).unwrap();
    builder.set_pubkey(&pkey).unwrap();
    let not_before = openssl::asn1::Asn1Time::days_from_now(0).unwrap();
    let not_after = openssl::asn1::Asn1Time::days_from_now(365).unwrap();
    builder.set_not_before(&not_before).unwrap();
    builder.set_not_after(&not_after).unwrap();
    builder
        .sign(&pkey, openssl::hash::MessageDigest::sha256())
        .unwrap();
    let cert = builder.build();
    let pem = String::from_utf8(cert.to_pem().unwrap()).unwrap();
    let body = get_cert_data(&pem);
    let begin = "-----BEGIN CERTIFICATE-----";
    let end = "-----END CERTIFICATE-----";
    let start = pem.find(begin).unwrap() + begin.len();
    let stop = pem.find(end).unwrap();
    assert_eq!(body, &pem[start..stop]);
    assert!(!body.is_empty());
}
