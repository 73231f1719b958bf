//! Decoding and parsing of IdP logout responses: base64 (POST binding),
//! base64 plus raw DEFLATE (Redirect binding), and the typed view of the
//! `samlp:Response` document.

use vstd::prelude::*;
use vstd::utf8::{decode_utf8, encode_utf8, valid_utf8};

use crate::codec::{
    b64_decode, b64_decoded, b64_err_of, b64_of, bytes_to_string, deflate_of, inflate_of,
    inflate_to_string, utf8_err_of,
};
use crate::error::Error;
use crate::idp::IdentityProvider;
use crate::strutil::{find_str, spec_find};

verus! {

/// The status code carried by a logout response.
#[derive(Debug)]
pub struct StatusCode {
    pub value: String,
}

/// The status element around the status code.
#[derive(Debug)]
pub struct Status {
    pub status_code: StatusCode,
}

/// The issuer of the response.
#[derive(Debug)]
pub struct Issuer {
    pub value: String,
}

/// The typed view of a `samlp:Response` document.
#[derive(Debug)]
pub struct Response {
    pub samlp: String,
    pub saml: String,
    pub id: String,
    pub version: String,
    pub issue_instant: String,
    pub destination: String,
    pub in_response_to: String,
    pub issuer: Issuer,
    pub status: Status,
}

/// Base64-decodes a POST-binding logout response into its text. The payload
/// is not compressed under that binding. Decoding an encoder output gives
/// the encoded text back; malformed base64 or invalid UTF-8 is rejected as
/// `InvalidResponse`.
pub fn decode_logout_response(encoded: &str) -> (r: Result<String, Error>)
    ensures
        (r matches Ok(_)) <==> (b64_decoded(encoded@) matches Some(b) && valid_utf8(b)),
        r matches Ok(s) ==> b64_decoded(encoded@) matches Some(b) && s@ == decode_utf8(b),
        b64_decoded(encoded@) is None ==> (r matches Err(e) && e matches Error::InvalidResponse(m)
            && m@ == "SAMLResponse is not encoded to base64: "@ + b64_err_of(encoded@)),
        (b64_decoded(encoded@) matches Some(b) && !valid_utf8(b)) ==> (r matches Err(e) && e
            matches Error::InvalidResponse(m) && m@ == "SAMLResponse contains invalid chars: "@
            + utf8_err_of(b64_decoded(encoded@)->Some_0)),
        r matches Err(e) ==> e matches Error::InvalidResponse(_),
        r matches Ok(s) ==> forall|x: Seq<char>| encoded@ == b64_of(encode_utf8(x)) ==> s@ == x,
        r matches Err(_) ==> forall|x: Seq<char>| encoded@ != b64_of(encode_utf8(x)),
{
    let bytes = match b64_decode(encoded) {
        Ok(b) => b,
        Err(e) => {
            proof {
                assert forall|x: Seq<char>| encoded@ != b64_of(encode_utf8(x)) by {
                    assert(encoded@ != b64_of(encode_utf8(x)));
                }
            }
            return Err(e);
        },
    };
    match bytes_to_string(bytes) {
        Ok(s) => {
            proof {
                assert forall|x: Seq<char>| encoded@ == b64_of(encode_utf8(x)) implies s@ == x by {
                    vstd::utf8::encode_utf8_decode_utf8(x);
                }
            }
            Ok(s)
        },
        Err(e) => {
            proof {
                assert forall|x: Seq<char>| encoded@ != b64_of(encode_utf8(x)) by {
                    if encoded@ == b64_of(encode_utf8(x)) {
                        vstd::utf8::encode_utf8_valid_utf8(x);
                    }
                }
            }
            Err(e)
        },
    }
}

/// Base64-decodes and then raw-inflates a Redirect-binding logout response
/// into its text. Decoding an encoding of a deflated text gives the text
/// back; malformed base64 is rejected as `InvalidResponse`, and an inflate
/// or stream failure as `IOError`.
pub fn decode_inflate_logout_response(deflated_encoded: &str) -> (r: Result<String, Error>)
    ensures
        (r matches Ok(_)) <==> (b64_decoded(deflated_encoded@) matches Some(b) && inflate_of(b)
            matches Some(d) && valid_utf8(d)),
        r matches Ok(s) ==> (b64_decoded(deflated_encoded@) matches Some(b) && inflate_of(b)
            matches Some(d) && s@ == decode_utf8(d)),
        b64_decoded(deflated_encoded@) is None ==> (r matches Err(e) && e matches
            Error::InvalidResponse(m) && m@ == "SAMLResponse is not encoded to base64: "@
            + b64_err_of(deflated_encoded@)),
        b64_decoded(deflated_encoded@) matches Some(b) && !(inflate_of(b) matches Some(d)
            && valid_utf8(d)) ==> (r matches Err(e) && e matches Error::IOError(_)),
        r matches Err(e) ==> (e matches Error::InvalidResponse(_) || e matches Error::IOError(_)),
        r matches Ok(s) ==> forall|x: Seq<char>|
            deflated_encoded@ == b64_of(deflate_of(encode_utf8(x))) ==> s@ == x,
        r matches Err(_) ==> forall|x: Seq<char>|
            deflated_encoded@ != b64_of(deflate_of(encode_utf8(x))),
{
    let bytes = match b64_decode(deflated_encoded) {
        Ok(b) => b,
        Err(e) => {
            proof {
                assert forall|x: Seq<char>|
                    deflated_encoded@ != b64_of(deflate_of(encode_utf8(x))) by {
                    assert(deflated_encoded@ != b64_of(deflate_of(encode_utf8(x))));
                }
            }
            return Err(e);
        },
    };
    match inflate_to_string(bytes.as_slice()) {
        Ok(s) => {
            proof {
                assert forall|x: Seq<char>|
                    deflated_encoded@ == b64_of(deflate_of(encode_utf8(x))) implies s@ == x by {
                    vstd::utf8::encode_utf8_valid_utf8(x);
                    vstd::utf8::encode_utf8_decode_utf8(x);
                }
            }
            Ok(s)
        },
        Err(e) => {
            proof {
                assert forall|x: Seq<char>|
                    deflated_encoded@ != b64_of(deflate_of(encode_utf8(x))) by {
                    if deflated_encoded@ == b64_of(deflate_of(encode_utf8(x))) {
                        vstd::utf8::encode_utf8_valid_utf8(x);
                    }
                }
            }
            Err(e)
        },
    }
}

/// The text of the open tag of the first element opened by `open_pat` in
/// `s`: from the end of the first occurrence of `open_pat` to the next `>`.
/// The pattern ends with a space, which is kept as the tag text's first
/// character, so that every attribute inside is preceded by whitespace.
pub open spec fn spec_open_tag(s: Seq<char>, open_pat: Seq<char>) -> Option<Seq<char>> {
    match spec_find(s, open_pat, 0) {
        None => None,
        Some(i) => match spec_find(s, ">"@, i + open_pat.len()) {
            None => None,
            Some(j) => Some(s.subrange(i + open_pat.len() - 1, j)),
        },
    }
}

/// The value of the attribute written `name_eq` (a leading space, the name,
/// `=`) inside one tag's text: the quote character right after `name_eq` -
/// double or single - opens the value, which runs to the next quote of the
/// same kind.
pub open spec fn spec_attr_in(tag: Seq<char>, name_eq: Seq<char>) -> Option<Seq<char>> {
    match spec_find(tag, name_eq, 0) {
        None => None,
        Some(i) => {
            let p = i + name_eq.len();
            if p < tag.len() && (tag[p] == '"' || tag[p] == '\'') {
                match spec_find(tag, seq![tag[p]], p + 1) {
                    None => None,
                    Some(j) => Some(tag.subrange(p + 1, j)),
                }
            } else {
                None
            }
        },
    }
}

/// The text content of the element opened by `open_pat`: the text from the
/// end of the first occurrence of `open_pat` to the next `<`.
pub open spec fn spec_elem_text(s: Seq<char>, open_pat: Seq<char>) -> Option<Seq<char>> {
    match spec_find(s, open_pat, 0) {
        None => None,
        Some(i) => match spec_find(s, "<"@, i + open_pat.len()) {
            None => None,
            Some(j) => Some(s.subrange(i + open_pat.len(), j)),
        },
    }
}

/// Extracts the open-tag text that `spec_open_tag` describes.
fn open_tag<'a>(s: &'a str, open_pat: &str) -> (r: Option<&'a str>)
    requires
        open_pat@.len() >= 1,
    ensures
        r matches Some(t) ==> spec_open_tag(s@, open_pat@) == Some(t@),
        r is None ==> spec_open_tag(s@, open_pat@) is None,
{
    let slen = s.unicode_len();
    let i = match find_str(s, open_pat, 0) {
        Some(i) => i,
        None => {
            return None;
        },
    };
    proof {
        assert(i + open_pat@.len() <= slen);
    }
    let start = i + open_pat.unicode_len();
    let j = match find_str(s, ">", start) {
        Some(j) => j,
        None => {
            return None;
        },
    };
    Some(s.substring_char(start - 1, j))
}

/// Extracts the attribute value that `spec_attr_in` describes.
fn attr_in(tag: &str, name_eq: &str) -> (r: Option<String>)
    ensures
        r matches Some(v) ==> spec_attr_in(tag@, name_eq@) == Some(v@),
        r is None ==> spec_attr_in(tag@, name_eq@) is None,
{
    let tlen = tag.unicode_len();
    let i = match find_str(tag, name_eq, 0) {
        Some(i) => i,
        None => {
            return None;
        },
    };
    proof {
        assert(i + name_eq@.len() <= tlen);
    }
    let p = i + name_eq.unicode_len();
    if p >= tlen {
        return None;
    }
    let q = tag.get_char(p);
    if q == '"' {
        proof {
            reveal_strlit("\"");
            assert("\""@ =~= seq![q]);
        }
        let j = match find_str(tag, "\"", p + 1) {
            Some(j) => j,
            None => {
                return None;
            },
        };
        Some(tag.substring_char(p + 1, j).to_owned())
    } else if q == '\'' {
        proof {
            reveal_strlit("'");
            assert("'"@ =~= seq![q]);
        }
        let j = match find_str(tag, "'", p + 1) {
            Some(j) => j,
            None => {
                return None;
            },
        };
        Some(tag.substring_char(p + 1, j).to_owned())
    } else {
        None
    }
}

/// Extracts the element text that `spec_elem_text` describes.
fn elem_text(s: &str, open_pat: &str) -> (r: Option<String>)
    ensures
        r matches Some(v) ==> spec_elem_text(s@, open_pat@) == Some(v@),
        r is None ==> spec_elem_text(s@, open_pat@) is None,
{
    let slen = s.unicode_len();
    let i = match find_str(s, open_pat, 0) {
        Some(i) => i,
        None => {
            return None;
        },
    };
    proof {
        assert(i + open_pat@.len() <= slen);
    }
    let start = i + open_pat.unicode_len();
    let j = match find_str(s, "<", start) {
        Some(j) => j,
        None => {
            return None;
        },
    };
    Some(s.substring_char(start, j).to_owned())
}

/// The open tag of the root `samlp:Response` element: its attributes are
/// read here and nowhere else in the document.
pub open spec fn spec_root_tag(xml: Seq<char>) -> Option<Seq<char>> {
    spec_open_tag(xml, "<samlp:Response "@)
}

/// The open tag of the `samlp:StatusCode` element: its `Value` attribute is
/// read here, not from any other element.
pub open spec fn spec_status_tag(xml: Seq<char>) -> Option<Seq<char>> {
    spec_open_tag(xml, "<samlp:StatusCode "@)
}

/// All the pieces of a `samlp:Response` document are present: the seven
/// root attributes inside the root element's own open tag, the issuer text,
/// and the status code inside the `samlp:StatusCode` open tag.
pub open spec fn spec_response_complete(xml: Seq<char>) -> bool {
    match (spec_root_tag(xml), spec_status_tag(xml)) {
        (Some(root), Some(status)) => {
            &&& spec_attr_in(root, " xmlns:samlp="@) is Some
            &&& spec_attr_in(root, " xmlns:saml="@) is Some
            &&& spec_attr_in(root, " ID="@) is Some
            &&& spec_attr_in(root, " Version="@) is Some
            &&& spec_attr_in(root, " IssueInstant="@) is Some
            &&& spec_attr_in(root, " Destination="@) is Some
            &&& spec_attr_in(root, " InResponseTo="@) is Some
            &&& spec_elem_text(xml, "<saml:Issuer>"@) is Some
            &&& spec_attr_in(status, " Value="@) is Some
        },
        _ => false,
    }
}

/// The typed response matches the document piece for piece, each attribute
/// taken from its own element's open tag.
pub open spec fn spec_response_matches(xml: Seq<char>, resp: Response) -> bool {
    match (spec_root_tag(xml), spec_status_tag(xml)) {
        (Some(root), Some(status)) => {
            &&& spec_attr_in(root, " xmlns:samlp="@) == Some(resp.samlp@)
            &&& spec_attr_in(root, " xmlns:saml="@) == Some(resp.saml@)
            &&& spec_attr_in(root, " ID="@) == Some(resp.id@)
            &&& spec_attr_in(root, " Version="@) == Some(resp.version@)
            &&& spec_attr_in(root, " IssueInstant="@) == Some(resp.issue_instant@)
            &&& spec_attr_in(root, " Destination="@) == Some(resp.destination@)
            &&& spec_attr_in(root, " InResponseTo="@) == Some(resp.in_response_to@)
            &&& spec_elem_text(xml, "<saml:Issuer>"@) == Some(resp.issuer.value@)
            &&& spec_attr_in(status, " Value="@) == Some(resp.status.status_code.value@)
        },
        _ => false,
    }
}

fn missing_piece_error() -> (e: Error)
    ensures
        e matches Error::InvalidResponse(m) && m@
            == "the response is missing a required attribute or element"@,
{
    Error::InvalidResponse(
        String::from_str("the response is missing a required attribute or element"),
    )
}

impl IdentityProvider {
    /// Parses a logout-response document into its typed view: the root
    /// element's attributes, the issuer text, and the status-code value,
    /// each read from its own element. Succeeds exactly when every piece is
    /// present; the XML signature is not verified here, and
    /// Destination/InResponseTo are handed back for the caller to validate.
    pub fn logout_response(&self, xml: &str) -> (r: Result<Response, Error>)
        ensures
            (r matches Ok(_)) <==> spec_response_complete(xml@),
            r matches Ok(resp) ==> spec_response_matches(xml@, resp),
            r matches Err(e) ==> (e matches Error::InvalidResponse(m) && m@
                == "the response is missing a required attribute or element"@),
    {
        proof {
            reveal_strlit("<samlp:Response ");
            reveal_strlit("<samlp:StatusCode ");
        }
        let root = match open_tag(xml, "<samlp:Response ") {
            Some(t) => t,
            None => {
                return Err(missing_piece_error());
            },
        };
        let status = match open_tag(xml, "<samlp:StatusCode ") {
            Some(t) => t,
            None => {
                return Err(missing_piece_error());
            },
        };
        let samlp = attr_in(root, " xmlns:samlp=");
        let saml = attr_in(root, " xmlns:saml=");
        let id = attr_in(root, " ID=");
        let version = attr_in(root, " Version=");
        let issue_instant = attr_in(root, " IssueInstant=");
        let destination = attr_in(root, " Destination=");
        let in_response_to = attr_in(root, " InResponseTo=");
        let issuer = elem_text(xml, "<saml:Issuer>");
        let status_value = attr_in(status, " Value=");
        match (samlp, saml, id, version, issue_instant, destination, in_response_to, issuer, status_value) {
            (
                Some(samlp),
                Some(saml),
                Some(id),
                Some(version),
                Some(issue_instant),
                Some(destination),
                Some(in_response_to),
                Some(issuer),
                Some(status_value),
            ) => Ok(
                Response {
                    samlp,
                    saml,
                    id,
                    version,
                    issue_instant,
                    destination,
                    in_response_to,
                    issuer: Issuer { value: issuer },
                    status: Status { status_code: StatusCode { value: status_value } },
                },
            ),
            _ => Err(missing_piece_error()),
        }
    }
}

} // verus!
