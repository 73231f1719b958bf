//! Verified text helpers: substring search, XML escaping, and
//! x-www-form-urlencoded percent-encoding of query values.

use vstd::prelude::*;
use vstd::utf8::encode_utf8;

use crate::codec::push_char;

verus! {

/// `pat` occurs in `s` starting at position `i`.
pub open spec fn is_prefix_at(s: Seq<char>, pat: Seq<char>, i: int) -> bool {
    &&& 0 <= i
    &&& i + pat.len() <= s.len()
    &&& forall|m: int| 0 <= m < pat.len() ==> s[i + m] == pat[m]
}

/// Whether `pat` occurs in `s` at position `i`.
pub fn matches_at(s: &str, pat: &str, i: usize) -> (r: bool)
    ensures
        r == is_prefix_at(s@, pat@, i as int),
{
    let n = pat.unicode_len();
    let len = s.unicode_len();
    if i > len || len - i < n {
        return false;
    }
    let mut k: usize = 0;
    while k < n
        invariant
            k <= n,
            n == pat@.len(),
            len == s@.len(),
            i + n <= len,
            forall|m: int| 0 <= m < k ==> s@[i + m] == pat@[m],
        decreases n - k,
    {
        if s.get_char(i + k) != pat.get_char(k) {
            assert(s@[i + k as int] != pat@[k as int]);
            return false;
        }
        k = k + 1;
    }
    true
}

/// The position of the first `'-'` at or after `k`, or the length of `s`.
pub open spec fn first_dash(s: Seq<char>, k: int) -> int
    decreases s.len() - k,
    when 0 <= k <= s.len()
{
    if k == s.len() {
        k
    } else if s[k] == '-' {
        k
    } else {
        first_dash(s, k + 1)
    }
}

proof fn lemma_first_dash(s: Seq<char>, from: int, j: int)
    requires
        0 <= from <= j <= s.len(),
        forall|m: int| from <= m < j ==> s[m] != '-',
        j == s.len() || s[j] == '-',
    ensures
        first_dash(s, from) == j,
    decreases j - from,
{
    if from < j {
        lemma_first_dash(s, from + 1, j);
    }
}

/// Scans for the first `'-'` at or after `from`; yields the length of `s`
/// when there is none.
pub fn find_dash(s: &str, from: usize) -> (r: usize)
    requires
        from <= s@.len(),
    ensures
        r as int == first_dash(s@, from as int),
        from <= r <= s@.len(),
{
    let len = s.unicode_len();
    let mut j = from;
    while j < len
        invariant
            from <= j <= len,
            len == s@.len(),
            forall|m: int| from <= m < j ==> s@[m] != '-',
        decreases len - j,
    {
        if s.get_char(j) == '-' {
            proof {
                lemma_first_dash(s@, from as int, j as int);
            }
            return j;
        }
        j = j + 1;
    }
    proof {
        lemma_first_dash(s@, from as int, len as int);
    }
    len
}

/// The first position at or after `from` where `pat` occurs in `s`.
pub open spec fn spec_find(s: Seq<char>, pat: Seq<char>, from: int) -> Option<int>
    decreases s.len() - from,
    when 0 <= from
{
    if from + pat.len() > s.len() {
        None
    } else if is_prefix_at(s, pat, from) {
        Some(from)
    } else {
        spec_find(s, pat, from + 1)
    }
}

proof fn lemma_find_from(s: Seq<char>, pat: Seq<char>, from: int, i: int)
    requires
        0 <= from <= i,
        forall|k: int| from <= k < i ==> !is_prefix_at(s, pat, k),
        is_prefix_at(s, pat, i),
    ensures
        spec_find(s, pat, from) == Some(i),
    decreases i - from,
{
    if from < i {
        lemma_find_from(s, pat, from + 1, i);
    }
}

proof fn lemma_find_none(s: Seq<char>, pat: Seq<char>, from: int)
    requires
        0 <= from,
        forall|k: int| from <= k && k + pat.len() <= s.len() ==> !is_prefix_at(s, pat, k),
    ensures
        spec_find(s, pat, from) is None,
    decreases s.len() - from,
{
    if from + pat.len() <= s.len() {
        lemma_find_none(s, pat, from + 1);
    }
}

/// Finds the first occurrence of `pat` in `s` at or after `from`.
pub fn find_str(s: &str, pat: &str, from: usize) -> (r: Option<usize>)
    ensures
        r matches Some(i) ==> from <= i && i + pat@.len() <= s@.len() && spec_find(
            s@,
            pat@,
            from as int,
        ) == Some(i as int),
        r is None ==> spec_find(s@, pat@, from as int) is None,
{
    let n = pat.unicode_len();
    let len = s.unicode_len();
    if from > len {
        proof {
            lemma_find_none(s@, pat@, from as int);
        }
        return None;
    }
    let mut i = from;
    loop
        invariant
            from <= i <= len,
            n == pat@.len(),
            len == s@.len(),
            forall|k: int| from <= k < i ==> !is_prefix_at(s@, pat@, k),
        decreases len - i,
    {
        if len - i < n {
            proof {
                lemma_find_none(s@, pat@, from as int);
            }
            return None;
        }
        if matches_at(s, pat, i) {
            proof {
                lemma_find_from(s@, pat@, from as int, i as int);
            }
            return Some(i);
        }
        i = i + 1;
    }
}

/// How one character is written inside XML text or an attribute value.
pub open spec fn escaped_char(c: char) -> Seq<char> {
    if c == '&' {
        "&amp;"@
    } else if c == '<' {
        "&lt;"@
    } else if c == '>' {
        "&gt;"@
    } else if c == '"' {
        "&quot;"@
    } else if c == '\'' {
        "&apos;"@
    } else {
        seq![c]
    }
}

/// XML escaping of a whole text, character by character.
pub open spec fn spec_escape(s: Seq<char>) -> Seq<char>
    decreases s.len(),
{
    if s.len() == 0 {
        Seq::<char>::empty()
    } else {
        spec_escape(s.drop_last()) + escaped_char(s.last())
    }
}

/// Escaping a text free of the five XML special characters leaves it as it is.
pub proof fn lemma_escape_clean_identity(s: Seq<char>)
    requires
        forall|i: int|
            0 <= i < s.len() ==> s[i] != '&' && s[i] != '<' && s[i] != '>' && s[i] != '"' && s[i]
                != '\'',
    ensures
        spec_escape(s) == s,
    decreases s.len(),
{
    if s.len() == 0 {
        assert(spec_escape(s) =~= s);
    } else {
        lemma_escape_clean_identity(s.drop_last());
        assert(spec_escape(s) =~= s);
    }
}

/// Escapes the five XML special characters.
pub fn escape_xml(s: &str) -> (r: String)
    ensures
        r@ == spec_escape(s@),
{
    let len = s.unicode_len();
    let mut out = String::new();
    let mut i: usize = 0;
    while i < len
        invariant
            i <= len,
            len == s@.len(),
            out@ == spec_escape(s@.take(i as int)),
        decreases len - i,
    {
        let c = s.get_char(i);
        if c == '&' {
            out.append("&amp;");
        } else if c == '<' {
            out.append("&lt;");
        } else if c == '>' {
            out.append("&gt;");
        } else if c == '"' {
            out.append("&quot;");
        } else if c == '\'' {
            out.append("&apos;");
        } else {
            push_char(&mut out, c);
        }
        proof {
            assert(s@.take(i + 1).drop_last() =~= s@.take(i as int));
            assert(s@.take(i + 1).last() == s@[i as int]);
        }
        i = i + 1;
    }
    proof {
        assert(s@.take(len as int) =~= s@);
    }
    out
}

/// One uppercase hexadecimal digit.
pub open spec fn hex_digit_upper(n: u8) -> char {
    if n == 0 {
        '0'
    } else if n == 1 {
        '1'
    } else if n == 2 {
        '2'
    } else if n == 3 {
        '3'
    } else if n == 4 {
        '4'
    } else if n == 5 {
        '5'
    } else if n == 6 {
        '6'
    } else if n == 7 {
        '7'
    } else if n == 8 {
        '8'
    } else if n == 9 {
        '9'
    } else if n == 10 {
        'A'
    } else if n == 11 {
        'B'
    } else if n == 12 {
        'C'
    } else if n == 13 {
        'D'
    } else if n == 14 {
        'E'
    } else {
        'F'
    }
}

fn hex_digit_upper_exec(n: u8) -> (c: char)
    requires
        n < 16,
    ensures
        c == hex_digit_upper(n),
{
    if n == 0 {
        '0'
    } else if n == 1 {
        '1'
    } else if n == 2 {
        '2'
    } else if n == 3 {
        '3'
    } else if n == 4 {
        '4'
    } else if n == 5 {
        '5'
    } else if n == 6 {
        '6'
    } else if n == 7 {
        '7'
    } else if n == 8 {
        '8'
    } else if n == 9 {
        '9'
    } else if n == 10 {
        'A'
    } else if n == 11 {
        'B'
    } else if n == 12 {
        'C'
    } else if n == 13 {
        'D'
    } else if n == 14 {
        'E'
    } else {
        'F'
    }
}

/// Bytes that x-www-form-urlencoded serializing leaves unencoded:
/// alphanumerics and `*`, `-`, `.`, `_`.
pub open spec fn is_url_unreserved(b: u8) -> bool {
    (48 <= b <= 57) || (65 <= b <= 90) || (97 <= b <= 122) || b == 42 || b == 45 || b == 46 || b
        == 95
}

/// How one byte is written in a query value: space as `+`, unreserved bytes
/// as themselves, all else percent-encoded in uppercase hexadecimal.
pub open spec fn url_byte(b: u8) -> Seq<char> {
    if b == 32 {
        seq!['+']
    } else if is_url_unreserved(b) {
        seq![b as char]
    } else {
        seq!['%', hex_digit_upper(b / 16), hex_digit_upper(b % 16)]
    }
}

/// x-www-form-urlencoded serialization of a byte string.
pub open spec fn spec_urlencode(bs: Seq<u8>) -> Seq<char>
    decreases bs.len(),
{
    if bs.len() == 0 {
        Seq::<char>::empty()
    } else {
        spec_urlencode(bs.drop_last()) + url_byte(bs.last())
    }
}

/// x-www-form-urlencoded serialization of a text, through its UTF-8 bytes.
pub open spec fn spec_urlenc_str(s: Seq<char>) -> Seq<char> {
    spec_urlencode(encode_utf8(s))
}

/// Percent-encodes a query value as the x-www-form-urlencoded serializer
/// does: over the UTF-8 bytes, space as `+`, unreserved bytes as themselves,
/// all else as uppercase `%XX`.
pub fn urlencode(s: &str) -> (r: String)
    ensures
        r@ == spec_urlenc_str(s@),
{
    let bytes = s.as_bytes();
    let n = bytes.len();
    let mut out = String::new();
    let mut i: usize = 0;
    while i < n
        invariant
            i <= n,
            n == bytes@.len(),
            bytes@ == encode_utf8(s@),
            out@ == spec_urlencode(bytes@.take(i as int)),
        decreases n - i,
    {
        let b = bytes[i];
        if b == 32 {
            push_char(&mut out, '+');
        } else if (48 <= b && b <= 57) || (65 <= b && b <= 90) || (97 <= b && b <= 122) || b == 42
            || b == 45 || b == 46 || b == 95 {
            push_char(&mut out, b as char);
        } else {
            push_char(&mut out, '%');
            push_char(&mut out, hex_digit_upper_exec(b / 16));
            push_char(&mut out, hex_digit_upper_exec(b % 16));
        }
        proof {
            assert(bytes@.take(i + 1).drop_last() =~= bytes@.take(i as int));
            assert(bytes@.take(i + 1).last() == bytes@[i as int]);
        }
        i = i + 1;
    }
    proof {
        assert(bytes@.take(n as int) =~= bytes@);
    }
    out
}

} // verus!
