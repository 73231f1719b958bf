//! The calls into outside crates that the protocol pipeline needs, each
//! behind a single wrapper whose contract states what that crate's
//! documentation and source promise.

use base64::Engine;
use vstd::prelude::*;
use vstd::utf8::{decode_utf8, valid_utf8};

use crate::error::Error;

verus! {

/// What base64's standard-alphabet encoder returns for the given bytes.
pub uninterp spec fn b64_of(bytes: Seq<u8>) -> Seq<char>;

/// What base64's standard-alphabet decoder returns: `None` on malformed input.
pub uninterp spec fn b64_decoded(text: Seq<char>) -> Option<Seq<u8>>;

/// The detail text of base64's decode error on the given malformed input.
pub uninterp spec fn b64_err_of(text: Seq<char>) -> Seq<char>;

/// The detail text of `String::from_utf8`'s error on the given invalid bytes.
pub uninterp spec fn utf8_err_of(bytes: Seq<u8>) -> Seq<char>;

/// What flate2's raw-DEFLATE encoder, at the fixed `fast` level, returns.
pub uninterp spec fn deflate_of(bytes: Seq<u8>) -> Seq<u8>;

/// Whether flate2's raw-DEFLATE encoder succeeds on the given bytes.
pub uninterp spec fn deflate_ok(bytes: Seq<u8>) -> bool;

/// What flate2's raw-DEFLATE decoder yields on the given bytes: `None` when
/// they are not a stream it can fully decompress.
pub uninterp spec fn inflate_of(bytes: Seq<u8>) -> Option<Seq<u8>>;

/// Whether the DER bytes parse as an RSA private key that openssl can sign
/// with; signing success depends on the key alone.
pub uninterp spec fn rsa_sign_ok(key_der: Seq<u8>) -> bool;

/// The RSA-SHA256 (PKCS#1 v1.5) signature as a function of the DER-encoded
/// key and the message; spoken of only where signing succeeds.
pub uninterp spec fn rsa_sha256_of(key_der: Seq<u8>, msg: Seq<u8>) -> Seq<u8>;

/// Relies on base64's `BASE64_STANDARD.encode`: the encoding is a function of
/// the input bytes alone.
#[verifier::external_body]
pub(crate) fn b64_encode(bytes: &[u8]) -> (r: String)
    ensures
        r@ == b64_of(bytes@),
{
    base64::prelude::BASE64_STANDARD.encode(bytes)
}

/// Relies on base64's `BASE64_STANDARD.decode`: it succeeds exactly on
/// well-formed input, and decoding inverts encoding.
#[verifier::external_body]
pub(crate) fn b64_decode(text: &str) -> (r: Result<Vec<u8>, Error>)
    ensures
        r matches Ok(v) ==> b64_decoded(text@) == Some(v@),
        (r matches Err(_)) <==> b64_decoded(text@) is None,
        r matches Err(e) ==> (e matches Error::InvalidResponse(m) && m@
            == "SAMLResponse is not encoded to base64: "@ + b64_err_of(text@)),
        r matches Ok(v) ==> forall|b: Seq<u8>| text@ == b64_of(b) ==> v@ == b,
        r matches Err(_) ==> forall|b: Seq<u8>| text@ != b64_of(b),
{
    base64::prelude::BASE64_STANDARD.decode(text).map_err(|err| {
        Error::InvalidResponse(format!("SAMLResponse is not encoded to base64: {}", err))
    })
}

/// Relies on flate2's `DeflateEncoder` (raw DEFLATE, no zlib/gzip wrapper) at
/// `Compression::fast`: the output is a function of the input bytes alone.
#[verifier::external_body]
pub(crate) fn deflate(bytes: &[u8]) -> (r: Result<Vec<u8>, Error>)
    ensures
        (r matches Ok(_)) <==> deflate_ok(bytes@),
        r matches Ok(v) ==> v@ == deflate_of(bytes@),
        r matches Err(e) ==> e matches Error::IOError(_),
{
    let mut encoder = flate2::read::DeflateEncoder::new(bytes, flate2::Compression::fast());
    let mut deflated = Vec::new();
    std::io::Read::read_to_end(&mut encoder, &mut deflated)
        .map_err(|err| Error::IOError(err.to_string()))?;
    Ok(deflated)
}

/// Relies on flate2's `DeflateDecoder` and `read_to_string`: inflating a
/// raw-DEFLATE stream of UTF-8 text gives that text back.
#[verifier::external_body]
pub(crate) fn inflate_to_string(bytes: &[u8]) -> (r: Result<String, Error>)
    ensures
        (r matches Ok(_)) <==> (inflate_of(bytes@) matches Some(d) && valid_utf8(d)),
        r matches Ok(s) ==> (inflate_of(bytes@) matches Some(d) && s@ == decode_utf8(d)),
        r matches Err(e) ==> e matches Error::IOError(_),
        r matches Ok(s) ==> forall|d: Seq<u8>|
            bytes@ == deflate_of(d) && valid_utf8(d) ==> s@ == decode_utf8(d),
        r matches Err(_) ==> forall|d: Seq<u8>|
            !(bytes@ == deflate_of(d) && valid_utf8(d)),
{
    let mut decoder = flate2::read::DeflateDecoder::new(bytes);
    let mut inflated = String::new();
    std::io::Read::read_to_string(&mut decoder, &mut inflated)
        .map_err(|err| Error::IOError(err.to_string()))?;
    Ok(inflated)
}

/// Relies on `String::from_utf8`: it succeeds exactly on valid UTF-8,
/// yielding its decoding.
#[verifier::external_body]
pub(crate) fn bytes_to_string(bytes: Vec<u8>) -> (r: Result<String, Error>)
    ensures
        (r matches Ok(_)) <==> valid_utf8(bytes@),
        r matches Ok(s) ==> s@ == decode_utf8(bytes@),
        r matches Err(e) ==> (e matches Error::InvalidResponse(m) && m@
            == "SAMLResponse contains invalid chars: "@ + utf8_err_of(bytes@)),
{
    String::from_utf8(bytes).map_err(|err| {
        Error::InvalidResponse(format!("SAMLResponse contains invalid chars: {}", err))
    })
}

/// One lowercase hexadecimal digit.
pub open spec fn hex_digit_lower(n: u8) -> char {
    if n == 0 {
        '0'
    } else if n == 1 {
        '1'
    } else if n == 2 {
        '2'
    } else if n == 3 {
        '3'
    } else if n == 4 {
        '4'
    } else if n == 5 {
        '5'
    } else if n == 6 {
        '6'
    } else if n == 7 {
        '7'
    } else if n == 8 {
        '8'
    } else if n == 9 {
        '9'
    } else if n == 10 {
        'a'
    } else if n == 11 {
        'b'
    } else if n == 12 {
        'c'
    } else if n == 13 {
        'd'
    } else if n == 14 {
        'e'
    } else {
        'f'
    }
}

/// Lowercase hexadecimal text: two digits for each byte, in order.
pub open spec fn spec_hex_lower(bytes: Seq<u8>) -> Seq<char>
    decreases bytes.len(),
{
    if bytes.len() == 0 {
        Seq::<char>::empty()
    } else {
        spec_hex_lower(bytes.drop_last()) + seq![
            hex_digit_lower(bytes.last() / 16),
            hex_digit_lower(bytes.last() % 16),
        ]
    }
}

/// The hexadecimal text of `bytes` is twice as long as `bytes`.
pub proof fn lemma_hex_lower_len(bytes: Seq<u8>)
    ensures
        spec_hex_lower(bytes).len() == 2 * bytes.len(),
    decreases bytes.len(),
{
    if bytes.len() > 0 {
        lemma_hex_lower_len(bytes.drop_last());
    }
}

/// Relies on `hex::encode`: lowercase hexadecimal, two digits per byte.
#[verifier::external_body]
pub(crate) fn hex_lower(bytes: &[u8]) -> (r: String)
    ensures
        r@ == spec_hex_lower(bytes@),
{
    hex::encode(bytes)
}

/// Relies on `rand::random` for fresh request-id bytes; nothing is assumed
/// of their values.
#[verifier::external_body]
pub(crate) fn random_bytes_21() -> (r: Vec<u8>)
    ensures
        r@.len() == 21,
{
    rand::random::<[u8; 21]>().to_vec()
}

/// An ASCII decimal digit.
pub open spec fn spec_is_digit(c: char) -> bool {
    '0' <= c && c <= '9'
}

/// The shape of a UTC instant in RFC3339 with millisecond precision and a
/// `Z` suffix: `YYYY-MM-DDThh:mm:ss.mmmZ`, 24 characters, digits everywhere
/// but the fixed separators.
pub open spec fn is_rfc3339_millis_utc(s: Seq<char>) -> bool {
    &&& s.len() == 24
    &&& s[4] == '-'
    &&& s[7] == '-'
    &&& s[10] == 'T'
    &&& s[13] == ':'
    &&& s[16] == ':'
    &&& s[19] == '.'
    &&& s[23] == 'Z'
    &&& forall|i: int|
        0 <= i < 24 && i != 4 && i != 7 && i != 10 && i != 13 && i != 16 && i != 19 && i != 23
            ==> spec_is_digit(#[trigger] s[i])
}

/// A text of that shape holds none of the five XML special characters, so
/// escaping embeds it in a document verbatim.
pub proof fn lemma_rfc3339_escape_identity(s: Seq<char>)
    requires
        is_rfc3339_millis_utc(s),
    ensures
        crate::strutil::spec_escape(s) == s,
{
    assert(forall|i: int|
        0 <= i < s.len() ==> #[trigger] s[i] != '&' && s[i] != '<' && s[i] != '>' && s[i] != '"'
            && s[i] != '\'');
    crate::strutil::lemma_escape_clean_identity(s);
}

/// Relies on chrono's `Utc::now` and `to_rfc3339_opts` (millisecond
/// precision, `Z` suffix): the result has the RFC3339 shape; which instant
/// it names depends on the clock, so nothing more is assumed of it.
#[verifier::external_body]
pub(crate) fn now_utc_rfc3339_millis() -> (r: String)
    ensures
        is_rfc3339_millis_utc(r@),
{
    chrono::Utc::now().to_rfc3339_opts(chrono::SecondsFormat::Millis, true)
}

/// Relies on chrono's `Utc::now`, `Duration::days` and `to_rfc3339_opts`:
/// the instant one day from now, in the same RFC3339 shape; which instant it
/// names depends on the clock, so nothing more is assumed of it.
#[verifier::external_body]
pub(crate) fn tomorrow_utc_rfc3339_millis() -> (r: String)
    ensures
        is_rfc3339_millis_utc(r@),
{
    (chrono::Utc::now() + chrono::Duration::days(1)).to_rfc3339_opts(
        chrono::SecondsFormat::Millis,
        true,
    )
}

/// Relies on openssl's `Rsa::private_key_from_der` and `Signer` with SHA-256:
/// RSA PKCS#1 v1.5 signing is deterministic, a function of the DER key and
/// the message alone.
#[verifier::external_body]
pub(crate) fn rsa_sha256_sign(key_der: &[u8], msg: &[u8]) -> (r: Result<Vec<u8>, Error>)
    ensures
        (r matches Ok(_)) <==> rsa_sign_ok(key_der@),
        r matches Ok(v) ==> v@ == rsa_sha256_of(key_der@, msg@),
        r matches Err(e) ==> e matches Error::InvalidCert(_),
{
    let to_cert_err = |err: openssl::error::ErrorStack| Error::InvalidCert(err.to_string());
    let rsa = openssl::rsa::Rsa::private_key_from_der(key_der).map_err(to_cert_err)?;
    let key = openssl::pkey::PKey::from_rsa(rsa).map_err(to_cert_err)?;
    let mut signer =
        openssl::sign::Signer::new(openssl::hash::MessageDigest::sha256(), &key)
            .map_err(to_cert_err)?;
    signer.update(msg).map_err(to_cert_err)?;
    signer.sign_to_vec().map_err(to_cert_err)
}

/// Relies on `String::push`: appends exactly the one character.
#[verifier::external_body]
pub(crate) fn push_char(s: &mut String, c: char)
    ensures
        final(s)@ == old(s)@ + seq![c],
{
    s.push(c);
}

} // verus!
