//! Service-provider side of the SAML 2.0 Web Browser SSO protocol:
//! signed authentication-request redirects, SP metadata documents, and
//! decoding of IdP logout responses.

use vstd::prelude::*;

pub mod codec;
pub mod error;
pub mod idp;
pub mod sp;
pub mod strutil;

verus! {

/// The PEM header line that opens a certificate body.
pub open spec fn begin_cert_marker() -> Seq<char> {
    "-----BEGIN CERTIFICATE-----"@
}

/// The PEM footer line that closes a certificate body.
pub open spec fn end_cert_marker() -> Seq<char> {
    "-----END CERTIFICATE-----"@
}

/// A position matches when the begin marker starts there and the dash-free
/// run that follows it is closed by the end marker.
pub open spec fn cert_match_at(s: Seq<char>, i: int) -> bool {
    strutil::is_prefix_at(s, begin_cert_marker(), i) && strutil::is_prefix_at(
        s,
        end_cert_marker(),
        strutil::first_dash(s, i + begin_cert_marker().len()),
    )
}

/// The first position at or after `from` where a certificate body matches.
pub open spec fn spec_find_cert(s: Seq<char>, from: int) -> Option<int>
    decreases s.len() - from,
    when 0 <= from
{
    if from >= s.len() {
        None
    } else if cert_match_at(s, from) {
        Some(from)
    } else {
        spec_find_cert(s, from + 1)
    }
}

/// The base64 body of the first certificate in `s`: the text strictly between
/// the begin marker and the end marker, or empty when no match exists.
pub open spec fn spec_cert_data(s: Seq<char>) -> Seq<char> {
    match spec_find_cert(s, 0) {
        None => Seq::<char>::empty(),
        Some(i) => s.subrange(
            i + begin_cert_marker().len(),
            strutil::first_dash(s, i + begin_cert_marker().len()),
        ),
    }
}

proof fn lemma_find_cert_from(s: Seq<char>, from: int, i: int)
    requires
        0 <= from <= i,
        forall|k: int| from <= k < i ==> !cert_match_at(s, k),
        i < s.len(),
        cert_match_at(s, i),
    ensures
        spec_find_cert(s, from) == Some(i),
    decreases i - from,
{
    if from < i {
        lemma_find_cert_from(s, from + 1, i);
    }
}

proof fn lemma_find_cert_none(s: Seq<char>, from: int)
    requires
        0 <= from,
        forall|k: int| from <= k < s.len() ==> !cert_match_at(s, k),
    ensures
        spec_find_cert(s, from) is None,
    decreases s.len() - from,
{
    if from < s.len() {
        lemma_find_cert_none(s, from + 1);
    }
}

/// Extracts the base64 body of the first PEM certificate in `pem`: the text
/// strictly between the begin and end markers, line breaks included. Returns
/// the empty string when the markers are absent.
pub fn get_cert_data(pem: &str) -> (r: String)
    ensures
        r@ == spec_cert_data(pem@),
{
    let len = pem.unicode_len();
    let mut i: usize = 0;
    loop
        invariant
            i <= len,
            len == pem@.len(),
            forall|k: int| 0 <= k < i ==> !cert_match_at(pem@, k),
        decreases len - i,
    {
        proof {
            reveal_strlit("-----BEGIN CERTIFICATE-----");
            reveal_strlit("-----END CERTIFICATE-----");
        }
        if len - i < 27 {
            proof {
                assert(begin_cert_marker().len() == 27);
                assert(forall|k: int| i <= k < pem@.len() ==> !cert_match_at(pem@, k));
                lemma_find_cert_none(pem@, 0);
            }
            return String::new();
        }
        if strutil::matches_at(pem, "-----BEGIN CERTIFICATE-----", i) {
            let body_start = i + 27;
            let j = strutil::find_dash(pem, body_start);
            if strutil::matches_at(pem, "-----END CERTIFICATE-----", j) {
                proof {
                    lemma_find_cert_from(pem@, 0, i as int);
                }
                let body = pem.substring_char(body_start, j);
                return body.to_owned();
            }
            proof {
                assert(!cert_match_at(pem@, i as int));
            }
        } else {
            proof {
                assert(!cert_match_at(pem@, i as int));
            }
        }
        i = i + 1;
    }
}

} // verus!
