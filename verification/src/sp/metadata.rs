//! SP metadata: an `md:EntityDescriptor` document advertising the service
//! provider's endpoints and its certificate, valid for one day.

use vstd::prelude::*;

use crate::codec::{is_rfc3339_millis_utc, tomorrow_utc_rfc3339_millis};
use crate::sp::ServiceProvider;
use crate::spec_cert_data;
use crate::strutil::{escape_xml, spec_escape};

verus! {

/// One assertion-consumer endpoint of the SP.
pub struct AssertionConsumerService {
    pub binding: String,
    pub location: String,
    pub index: String,
}

/// The single-logout endpoint of the SP.
pub struct SingleLogoutService {
    pub binding: String,
    pub location: String,
}

/// The certificate body carried inside a key descriptor.
pub struct X509Certificate {
    pub value: String,
}

/// The `ds:X509Data` element around the certificate.
pub struct X509Data {
    pub x509_certificate: X509Certificate,
}

/// The `ds:KeyInfo` element, carrying its signature namespace.
pub struct KeyInfo {
    pub ds: String,
    pub x509_data: X509Data,
}

/// One key descriptor: its use (signing or encryption) and its key info.
pub struct KeyDescriptor {
    pub us: String,
    pub key_info: KeyInfo,
}

/// The SP SSO descriptor: supported protocols, key descriptors, and the two
/// service endpoints.
pub struct SPSSODescriptor {
    pub protocol_support_enumeration: String,
    pub key_descriptor: Vec<KeyDescriptor>,
    pub single_logout_service: SingleLogoutService,
    pub assertion_consumer_service: AssertionConsumerService,
}

/// The root element of the metadata document.
pub struct EntityDescriptor {
    pub md: String,
    pub ds: String,
    pub entity_id: String,
    pub valid_until: String,
    pub sp_sso_descriptor: SPSSODescriptor,
}

pub open spec fn spec_acs_xml(binding: Seq<char>, location: Seq<char>, index: Seq<char>) -> Seq<
    char,
> {
    "<md:AssertionConsumerService Binding=\""@ + spec_escape(binding) + "\" Location=\""@
        + spec_escape(location) + "\" index=\""@ + spec_escape(index) + "\"/>"@
}

pub open spec fn spec_slo_xml(binding: Seq<char>, location: Seq<char>) -> Seq<char> {
    "<md:SingleLogoutService Binding=\""@ + spec_escape(binding) + "\" Location=\""@
        + spec_escape(location) + "\"/>"@
}

pub open spec fn spec_x509_certificate_xml(value: Seq<char>) -> Seq<char> {
    "<ds:X509Certificate>"@ + spec_escape(value) + "</ds:X509Certificate>"@
}

pub open spec fn spec_x509_data_xml(value: Seq<char>) -> Seq<char> {
    "<ds:X509Data>"@ + spec_x509_certificate_xml(value) + "</ds:X509Data>"@
}

pub open spec fn spec_key_info_xml(ds: Seq<char>, value: Seq<char>) -> Seq<char> {
    "<ds:KeyInfo xmlns:ds=\""@ + spec_escape(ds) + "\">"@ + spec_x509_data_xml(value)
        + "</ds:KeyInfo>"@
}

pub open spec fn spec_key_descriptor_xml(us: Seq<char>, ds: Seq<char>, value: Seq<char>) -> Seq<
    char,
> {
    "<md:KeyDescriptor use=\""@ + spec_escape(us) + "\">"@ + spec_key_info_xml(ds, value)
        + "</md:KeyDescriptor>"@
}

impl AssertionConsumerService {
    pub open spec fn spec_xml(&self) -> Seq<char> {
        spec_acs_xml(self.binding@, self.location@, self.index@)
    }

    /// Serializes this endpoint as its `md:AssertionConsumerService` element.
    pub fn to_xml(&self) -> (r: String)
        ensures
            r@ == self.spec_xml(),
    {
        let mut out = String::from_str("<md:AssertionConsumerService Binding=\"");
        out.append(escape_xml(self.binding.as_str()).as_str());
        out.append("\" Location=\"");
        out.append(escape_xml(self.location.as_str()).as_str());
        out.append("\" index=\"");
        out.append(escape_xml(self.index.as_str()).as_str());
        out.append("\"/>");
        out
    }
}

impl SingleLogoutService {
    pub open spec fn spec_xml(&self) -> Seq<char> {
        spec_slo_xml(self.binding@, self.location@)
    }

    /// Serializes this endpoint as its `md:SingleLogoutService` element.
    pub fn to_xml(&self) -> (r: String)
        ensures
            r@ == self.spec_xml(),
    {
        let mut out = String::from_str("<md:SingleLogoutService Binding=\"");
        out.append(escape_xml(self.binding.as_str()).as_str());
        out.append("\" Location=\"");
        out.append(escape_xml(self.location.as_str()).as_str());
        out.append("\"/>");
        out
    }
}

impl X509Certificate {
    pub open spec fn spec_xml(&self) -> Seq<char> {
        spec_x509_certificate_xml(self.value@)
    }

    /// Serializes the certificate body as its `ds:X509Certificate` element.
    pub fn to_xml(&self) -> (r: String)
        ensures
            r@ == self.spec_xml(),
    {
        let mut out = String::from_str("<ds:X509Certificate>");
        out.append(escape_xml(self.value.as_str()).as_str());
        out.append("</ds:X509Certificate>");
        out
    }
}

impl X509Data {
    pub open spec fn spec_xml(&self) -> Seq<char> {
        spec_x509_data_xml(self.x509_certificate.value@)
    }

    /// Serializes the `ds:X509Data` element.
    pub fn to_xml(&self) -> (r: String)
        ensures
            r@ == self.spec_xml(),
    {
        let mut out = String::from_str("<ds:X509Data>");
        out.append(self.x509_certificate.to_xml().as_str());
        out.append("</ds:X509Data>");
        out
    }
}

impl KeyInfo {
    pub open spec fn spec_xml(&self) -> Seq<char> {
        spec_key_info_xml(self.ds@, self.x509_data.x509_certificate.value@)
    }

    /// Serializes the `ds:KeyInfo` element.
    pub fn to_xml(&self) -> (r: String)
        ensures
            r@ == self.spec_xml(),
    {
        let mut out = String::from_str("<ds:KeyInfo xmlns:ds=\"");
        out.append(escape_xml(self.ds.as_str()).as_str());
        out.append("\">");
        out.append(self.x509_data.to_xml().as_str());
        out.append("</ds:KeyInfo>");
        out
    }
}

impl KeyDescriptor {
    pub open spec fn spec_xml(&self) -> Seq<char> {
        spec_key_descriptor_xml(self.us@, self.key_info.ds@, self.key_info.x509_data.x509_certificate.value@)
    }

    /// Serializes the `md:KeyDescriptor` element.
    pub fn to_xml(&self) -> (r: String)
        ensures
            r@ == self.spec_xml(),
    {
        let mut out = String::from_str("<md:KeyDescriptor use=\"");
        out.append(escape_xml(self.us.as_str()).as_str());
        out.append("\">");
        out.append(self.key_info.to_xml().as_str());
        out.append("</md:KeyDescriptor>");
        out
    }
}

/// The serialization of a run of key descriptors, in order.
pub open spec fn spec_key_descriptors_xml(kds: Seq<KeyDescriptor>) -> Seq<char>
    decreases kds.len(),
{
    if kds.len() == 0 {
        Seq::<char>::empty()
    } else {
        spec_key_descriptors_xml(kds.drop_last()) + kds.last().spec_xml()
    }
}

fn key_descriptors_xml(kds: &Vec<KeyDescriptor>) -> (r: String)
    ensures
        r@ == spec_key_descriptors_xml(kds@),
{
    let n = kds.len();
    let mut out = String::new();
    let mut i: usize = 0;
    while i < n
        invariant
            i <= n,
            n == kds@.len(),
            out@ == spec_key_descriptors_xml(kds@.take(i as int)),
        decreases n - i,
    {
        out.append((&kds[i]).to_xml().as_str());
        proof {
            assert(kds@.take(i + 1).drop_last() =~= kds@.take(i as int));
            assert(kds@.take(i + 1).last() == kds@[i as int]);
        }
        i = i + 1;
    }
    proof {
        assert(kds@.take(n as int) =~= kds@);
    }
    out
}

impl SPSSODescriptor {
    pub open spec fn spec_xml(&self) -> Seq<char> {
        "<md:SPSSODescriptor protocolSupportEnumeration=\""@ + spec_escape(
            self.protocol_support_enumeration@,
        ) + "\">"@ + spec_key_descriptors_xml(self.key_descriptor@)
            + self.single_logout_service.spec_xml() + self.assertion_consumer_service.spec_xml()
            + "</md:SPSSODescriptor>"@
    }

    /// Serializes the `md:SPSSODescriptor` element.
    pub fn to_xml(&self) -> (r: String)
        ensures
            r@ == self.spec_xml(),
    {
        let mut out = String::from_str("<md:SPSSODescriptor protocolSupportEnumeration=\"");
        out.append(escape_xml(self.protocol_support_enumeration.as_str()).as_str());
        out.append("\">");
        out.append(key_descriptors_xml(&self.key_descriptor).as_str());
        out.append(self.single_logout_service.to_xml().as_str());
        out.append(self.assertion_consumer_service.to_xml().as_str());
        out.append("</md:SPSSODescriptor>");
        out
    }
}

impl EntityDescriptor {
    pub open spec fn spec_xml(&self) -> Seq<char> {
        "<md:EntityDescriptor xmlns:md=\""@ + spec_escape(self.md@) + "\" xmlns:ds=\""@
            + spec_escape(self.ds@) + "\" entityID=\""@ + spec_escape(self.entity_id@)
            + "\" validUntil=\""@ + spec_escape(self.valid_until@) + "\">"@
            + self.sp_sso_descriptor.spec_xml() + "</md:EntityDescriptor>"@
    }

    /// Serializes the whole metadata document.
    pub fn to_xml(&self) -> (r: String)
        ensures
            r@ == self.spec_xml(),
    {
        let mut out = String::from_str("<md:EntityDescriptor xmlns:md=\"");
        out.append(escape_xml(self.md.as_str()).as_str());
        out.append("\" xmlns:ds=\"");
        out.append(escape_xml(self.ds.as_str()).as_str());
        out.append("\" entityID=\"");
        out.append(escape_xml(self.entity_id.as_str()).as_str());
        out.append("\" validUntil=\"");
        out.append(escape_xml(self.valid_until.as_str()).as_str());
        out.append("\">");
        out.append(self.sp_sso_descriptor.to_xml().as_str());
        out.append("</md:EntityDescriptor>");
        out
    }
}

/// The whole metadata document of a service provider, as a function of the
/// SP's configuration, the validity bound, and the certificate body that the
/// marker extraction yields. Both key descriptors carry that same body.
pub open spec fn spec_metadata_xml(sp: ServiceProvider, valid_until: Seq<char>) -> Seq<char> {
    "<md:EntityDescriptor xmlns:md=\""@ + spec_escape("urn:oasis:names:tc:SAML:2.0:metadata"@)
        + "\" xmlns:ds=\""@ + spec_escape("http://www.w3.org/2000/09/xmldsig#"@) + "\" entityID=\""@
        + spec_escape(sp.entity_id@) + "\" validUntil=\""@ + spec_escape(valid_until) + "\">"@ + (
    "<md:SPSSODescriptor protocolSupportEnumeration=\""@ + spec_escape(
        "urn:oasis:names:tc:SAML:1.1:protocol urn:oasis:names:tc:SAML:2.0:protocol"@,
    ) + "\">"@ + (spec_key_descriptor_xml(
        "signing"@,
        "http://www.w3.org/2000/09/xmldsig#"@,
        spec_cert_data(sp.certificate@),
    ) + spec_key_descriptor_xml(
        "encryption"@,
        "http://www.w3.org/2000/09/xmldsig#"@,
        spec_cert_data(sp.certificate@),
    )) + spec_slo_xml("urn:oasis:names:tc:SAML:2.0:bindings:HTTP-Redirect"@, sp.assert_logout@)
        + spec_acs_xml("urn:oasis:names:tc:SAML:2.0:bindings:HTTP-POST"@, sp.assert_login@, "0"@)
        + "</md:SPSSODescriptor>"@) + "</md:EntityDescriptor>"@
}

impl ServiceProvider {
    /// Builds the metadata document with an explicit `validUntil` value; the
    /// result is exactly the document the specification function describes.
    pub fn metadata_document(&self, valid_until: &str) -> (r: String)
        ensures
            r@ == spec_metadata_xml(*self, valid_until@),
    {
        let cert_data = crate::get_cert_data(self.certificate.as_str());
        let mut kds: Vec<KeyDescriptor> = Vec::new();
        kds.push(
            KeyDescriptor {
                us: String::from_str("signing"),
                key_info: KeyInfo {
                    ds: String::from_str("http://www.w3.org/2000/09/xmldsig#"),
                    x509_data: X509Data {
                        x509_certificate: X509Certificate { value: cert_data.clone() },
                    },
                },
            },
        );
        kds.push(
            KeyDescriptor {
                us: String::from_str("encryption"),
                key_info: KeyInfo {
                    ds: String::from_str("http://www.w3.org/2000/09/xmldsig#"),
                    x509_data: X509Data { x509_certificate: X509Certificate { value: cert_data } },
                },
            },
        );
        let ed = EntityDescriptor {
            md: String::from_str("urn:oasis:names:tc:SAML:2.0:metadata"),
            ds: String::from_str("http://www.w3.org/2000/09/xmldsig#"),
            entity_id: self.entity_id.clone(),
            valid_until: valid_until.to_owned(),
            sp_sso_descriptor: SPSSODescriptor {
                protocol_support_enumeration: String::from_str(
                    "urn:oasis:names:tc:SAML:1.1:protocol urn:oasis:names:tc:SAML:2.0:protocol",
                ),
                key_descriptor: kds,
                single_logout_service: SingleLogoutService {
                    binding: String::from_str("urn:oasis:names:tc:SAML:2.0:bindings:HTTP-Redirect"),
                    location: self.assert_logout.clone(),
                },
                assertion_consumer_service: AssertionConsumerService {
                    binding: String::from_str("urn:oasis:names:tc:SAML:2.0:bindings:HTTP-POST"),
                    location: self.assert_login.clone(),
                    index: String::from_str("0"),
                },
            },
        };
        let r = ed.to_xml();
        proof {
            let kseq = ed.sp_sso_descriptor.key_descriptor@;
            reveal_with_fuel(spec_key_descriptors_xml, 3);
            assert(kseq.len() == 2);
            assert(kseq.last() == kseq[1]);
            assert(kseq.drop_last().last() == kseq[0]);
            assert(kseq.drop_last().drop_last() =~= Seq::<KeyDescriptor>::empty());
            assert(spec_key_descriptors_xml(kseq) =~= kseq[0].spec_xml() + kseq[1].spec_xml());
            assert(r@ =~= spec_metadata_xml(*self, valid_until@));
        }
        r
    }

    /// Builds the metadata document, valid for one day from now. The result
    /// is the specified document for some `validUntil` text of RFC3339
    /// millisecond shape supplied by the clock.
    pub fn metadata(&self) -> (r: String)
        ensures
            exists|t: Seq<char>| is_rfc3339_millis_utc(t) && r@ == spec_metadata_xml(*self, t),
    {
        let valid_until = tomorrow_utc_rfc3339_millis();
        let r = self.metadata_document(valid_until.as_str());
        proof {
            assert(is_rfc3339_millis_utc(valid_until@) && r@ == spec_metadata_xml(
                *self,
                valid_until@,
            ));
        }
        r
    }
}

/// The document text before the first key descriptor.
pub open spec fn spec_md_head(sp: ServiceProvider, valid_until: Seq<char>) -> Seq<char> {
    "<md:EntityDescriptor xmlns:md=\""@ + spec_escape("urn:oasis:names:tc:SAML:2.0:metadata"@)
        + "\" xmlns:ds=\""@ + spec_escape("http://www.w3.org/2000/09/xmldsig#"@) + "\" entityID=\""@
        + spec_escape(sp.entity_id@) + "\" validUntil=\""@ + spec_escape(valid_until) + "\">"@
        + "<md:SPSSODescriptor protocolSupportEnumeration=\""@ + spec_escape(
        "urn:oasis:names:tc:SAML:1.1:protocol urn:oasis:names:tc:SAML:2.0:protocol"@,
    ) + "\">"@
}

/// The document text after the second key descriptor.
pub open spec fn spec_md_tail(sp: ServiceProvider) -> Seq<char> {
    spec_slo_xml("urn:oasis:names:tc:SAML:2.0:bindings:HTTP-Redirect"@, sp.assert_logout@)
        + spec_acs_xml("urn:oasis:names:tc:SAML:2.0:bindings:HTTP-POST"@, sp.assert_login@, "0"@)
        + "</md:SPSSODescriptor>"@ + "</md:EntityDescriptor>"@
}

/// The key-descriptor text before its certificate body.
pub open spec fn spec_kd_head(us: Seq<char>, ds: Seq<char>) -> Seq<char> {
    "<md:KeyDescriptor use=\""@ + spec_escape(us) + "\">"@ + "<ds:KeyInfo xmlns:ds=\""@
        + spec_escape(ds) + "\">"@ + "<ds:X509Data>"@ + "<ds:X509Certificate>"@
}

/// The key-descriptor text after its certificate body.
pub open spec fn spec_kd_tail() -> Seq<char> {
    "</ds:X509Certificate>"@ + "</ds:X509Data>"@ + "</ds:KeyInfo>"@ + "</md:KeyDescriptor>"@
}

/// A key descriptor is its head, then the escaped certificate body, then
/// its tail.
proof fn lemma_key_descriptor_splits(us: Seq<char>, ds: Seq<char>, value: Seq<char>)
    ensures
        spec_key_descriptor_xml(us, ds, value) == spec_kd_head(us, ds) + spec_escape(value)
            + spec_kd_tail(),
{
    assert(spec_key_descriptor_xml(us, ds, value) =~= spec_kd_head(us, ds) + spec_escape(value)
        + spec_kd_tail());
}

/// The metadata document is its head, the two key descriptors, and its tail.
proof fn lemma_metadata_splits(sp: ServiceProvider, valid_until: Seq<char>)
    ensures
        spec_metadata_xml(sp, valid_until) == spec_md_head(sp, valid_until)
            + spec_key_descriptor_xml(
            "signing"@,
            "http://www.w3.org/2000/09/xmldsig#"@,
            spec_cert_data(sp.certificate@),
        ) + spec_key_descriptor_xml(
            "encryption"@,
            "http://www.w3.org/2000/09/xmldsig#"@,
            spec_cert_data(sp.certificate@),
        ) + spec_md_tail(sp),
{
    assert(spec_metadata_xml(sp, valid_until) =~= spec_md_head(sp, valid_until)
        + spec_key_descriptor_xml(
        "signing"@,
        "http://www.w3.org/2000/09/xmldsig#"@,
        spec_cert_data(sp.certificate@),
    ) + spec_key_descriptor_xml(
        "encryption"@,
        "http://www.w3.org/2000/09/xmldsig#"@,
        spec_cert_data(sp.certificate@),
    ) + spec_md_tail(sp));
}

/// Both key descriptors of the metadata document embed the same certificate
/// body, byte for byte: the document decomposes around two occurrences of
/// the escaped body, and a body free of the XML special characters - as a
/// PEM base64 body is - is embedded unchanged.
#[verifier::rlimit(50)]
pub proof fn lemma_metadata_embeds_certificate_twice(sp: ServiceProvider, valid_until: Seq<char>)
    ensures
        exists|pre: Seq<char>, mid: Seq<char>, post: Seq<char>|
            spec_metadata_xml(sp, valid_until) == pre + spec_escape(
                spec_cert_data(sp.certificate@),
            ) + mid + spec_escape(spec_cert_data(sp.certificate@)) + post,
{
    let ds = "http://www.w3.org/2000/09/xmldsig#"@;
    let cert = spec_escape(spec_cert_data(sp.certificate@));
    lemma_metadata_splits(sp, valid_until);
    lemma_key_descriptor_splits("signing"@, ds, spec_cert_data(sp.certificate@));
    lemma_key_descriptor_splits("encryption"@, ds, spec_cert_data(sp.certificate@));
    let pre = spec_md_head(sp, valid_until) + spec_kd_head("signing"@, ds);
    let mid = spec_kd_tail() + spec_kd_head("encryption"@, ds);
    let post = spec_kd_tail() + spec_md_tail(sp);
    assert(spec_metadata_xml(sp, valid_until) =~= pre + cert + mid + cert + post);
}

} // verus!
