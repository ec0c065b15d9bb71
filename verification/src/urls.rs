//! Percent-encoding of query text and the Dexscreener endpoints built from it.
use vstd::prelude::*;

use vstd::string::StringSliceAdditionalSpecFns;

use crate::text::push_char;

verus! {

/// Bytes that stand for themselves in a URL: ASCII letters and digits, and
/// `-`, `_`, `.`, `~`.
pub open spec fn is_unreserved(b: u8) -> bool {
    ||| (48 <= b && b <= 57)
    ||| (65 <= b && b <= 90)
    ||| (97 <= b && b <= 122)
    ||| b == 45 || b == 95 || b == 46 || b == 126
}

/// The upper-case hexadecimal digit of a value below sixteen.
pub open spec fn hex_digit(n: u8) -> char {
    if n < 10 {
        (48 + n) as char
    } else {
        (55 + n) as char
    }
}

/// How one byte is written: itself, or `%` and its two upper-case hex digits.
pub open spec fn encode_byte(b: u8) -> Seq<char> {
    if is_unreserved(b) {
        seq![b as char]
    } else {
        seq!['%', hex_digit(b / 16), hex_digit(b % 16)]
    }
}

/// The percent-encoding of a byte string.
pub open spec fn percent_encode(bytes: Seq<u8>) -> Seq<char>
    decreases bytes.len(),
{
    if bytes.len() == 0 {
        seq![]
    } else {
        percent_encode(bytes.drop_last()) + encode_byte(bytes.last())
    }
}

fn is_unreserved_exec(b: u8) -> (r: bool)
    ensures
        r == is_unreserved(b),
{
    (48 <= b && b <= 57) || (65 <= b && b <= 90) || (97 <= b && b <= 122) || b == 45 || b == 95
        || b == 46 || b == 126
}

fn hex_digit_exec(n: u8) -> (c: char)
    requires
        n < 16,
    ensures
        c == hex_digit(n),
{
    if n < 10 {
        (48 + n) as char
    } else {
        (55 + n) as char
    }
}

/// Percent-encodes the UTF-8 bytes of `s`, for use in a URL path or query.
pub fn urlencode(s: &str) -> (out: String)
    ensures
        out@ == percent_encode(s.spec_bytes()),
{
    let bytes = s.as_bytes();
    let n = bytes.len();
    let mut out = String::new();
    let mut i: usize = 0;
    while i < n
        invariant
            n == bytes@.len(),
            bytes@ == s.spec_bytes(),
            i <= n,
            out@ == percent_encode(bytes@.take(i as int)),
        decreases n - i,
    {
        let b = bytes[i];
        if is_unreserved_exec(b) {
            push_char(&mut out, b as char);
        } else {
            push_char(&mut out, '%');
            push_char(&mut out, hex_digit_exec(b / 16));
            push_char(&mut out, hex_digit_exec(b % 16));
        }
        assert(bytes@.take(i + 1).drop_last() =~= bytes@.take(i as int));
        assert(out@ =~= percent_encode(bytes@.take(i + 1)));
        i = i + 1;
    }
    assert(bytes@.take(n as int) =~= bytes@);
    out
}

/// The search endpoint for a free-text query.
pub open spec fn search_url_text(query: Seq<u8>) -> Seq<char> {
    "https://api.dexscreener.com/latest/dex/search?q="@ + percent_encode(query)
}

/// The endpoint of one pair on one chain.
pub open spec fn pair_url_text(chain_id: Seq<u8>, pair_address: Seq<u8>) -> Seq<char> {
    "https://api.dexscreener.com/latest/dex/pairs/"@ + percent_encode(chain_id) + "/"@
        + percent_encode(pair_address)
}

/// The Dexscreener search URL for `query`.
pub fn search_url(query: &str) -> (url: String)
    ensures
        url@ == search_url_text(query.spec_bytes()),
{
    let mut url = String::from_str("https://api.dexscreener.com/latest/dex/search?q=");
    let q = urlencode(query);
    url.append(q.as_str());
    url
}

/// The Dexscreener URL of the pair `pair_address` on the chain `chain_id`.
pub fn pair_url(chain_id: &str, pair_address: &str) -> (url: String)
    ensures
        url@ == pair_url_text(chain_id.spec_bytes(), pair_address.spec_bytes()),
{
    let mut url = String::from_str("https://api.dexscreener.com/latest/dex/pairs/");
    let c = urlencode(chain_id);
    url.append(c.as_str());
    url.append("/");
    let p = urlencode(pair_address);
    url.append(p.as_str());
    url
}

/// Characters that the encoding can write: unreserved ones, `%`, and
/// upper-case hex digits (which are unreserved).
pub open spec fn is_url_safe(c: char) -> bool {
    c == '%' || (c as int) < 256 && is_unreserved(c as u8)
}

proof fn lemma_hex_digit_safe(n: u8)
    requires
        n < 16,
    ensures
        is_url_safe(hex_digit(n)),
{
}

/// The encoding only writes URL-safe characters, so an encoded segment
/// never holds a `/`, `?`, `&` or `#` that could change the URL's shape.
pub proof fn lemma_encoding_is_url_safe(bytes: Seq<u8>)
    ensures
        forall|i: int| 0 <= i < percent_encode(bytes).len() ==> is_url_safe(percent_encode(bytes)[i]),
    decreases bytes.len(),
{
    if bytes.len() > 0 {
        lemma_encoding_is_url_safe(bytes.drop_last());
        let b = bytes.last();
        lemma_hex_digit_safe(b / 16);
        lemma_hex_digit_safe(b % 16);
        let e = encode_byte(b);
        assert forall|i: int| 0 <= i < e.len() implies is_url_safe(e[i]) by {
            if is_unreserved(b) {
                assert(e[i] == b as char);
            }
        }
        let p = percent_encode(bytes.drop_last());
        assert(percent_encode(bytes) == p + e);
        assert forall|i: int| 0 <= i < percent_encode(bytes).len() implies is_url_safe(
            percent_encode(bytes)[i],
        ) by {
            if i < p.len() {
                assert(percent_encode(bytes)[i] == p[i]);
            } else {
                assert(percent_encode(bytes)[i] == e[i - p.len()]);
            }
        }
    }
}

/// Text made only of unreserved bytes is written unchanged.
pub proof fn lemma_unreserved_text_unchanged(bytes: Seq<u8>)
    requires
        forall|i: int| 0 <= i < bytes.len() ==> is_unreserved(bytes[i]),
    ensures
        percent_encode(bytes) == bytes.map_values(|b: u8| b as char),
    decreases bytes.len(),
{
    if bytes.len() > 0 {
        lemma_unreserved_text_unchanged(bytes.drop_last());
        assert(bytes.map_values(|b: u8| b as char) =~= bytes.drop_last().map_values(
            |b: u8| b as char,
        ) + seq![bytes.last() as char]);
    } else {
        assert(bytes.map_values(|b: u8| b as char) =~= Seq::<char>::empty());
    }
}

/// Encoding a concatenation gives the concatenation of the encodings.
pub proof fn lemma_encode_concat(a: Seq<u8>, b: Seq<u8>)
    ensures
        percent_encode(a + b) == percent_encode(a) + percent_encode(b),
    decreases b.len(),
{
    if b.len() == 0 {
        assert(a + b =~= a);
        assert(percent_encode(b) =~= Seq::<char>::empty());
        assert(percent_encode(a) + percent_encode(b) =~= percent_encode(a));
    } else {
        lemma_encode_concat(a, b.drop_last());
        assert((a + b).drop_last() =~= a + b.drop_last());
        assert((a + b).last() == b.last());
        assert(percent_encode(a + b) =~= percent_encode(a) + percent_encode(b));
    }
}

/// The value of an upper-case hex digit.
pub open spec fn hex_value(c: char) -> int {
    if 48 <= (c as int) && (c as int) <= 57 {
        (c as int) - 48
    } else {
        (c as int) - 55
    }
}

/// Percent-decoding: each `%` and the two hex digits after it stand for the
/// byte they spell; every other character stands for its own code.
pub open spec fn percent_decode(t: Seq<char>) -> Seq<u8>
    decreases t.len(),
{
    if t.len() == 0 {
        seq![]
    } else if t[0] == '%' && t.len() >= 3 {
        seq![(hex_value(t[1]) * 16 + hex_value(t[2])) as u8] + percent_decode(t.subrange(3, t.len() as int))
    } else {
        seq![t[0] as u8] + percent_decode(t.subrange(1, t.len() as int))
    }
}

proof fn lemma_hex_roundtrip(n: u8)
    requires
        n < 16,
    ensures
        hex_value(hex_digit(n)) == n,
{
}

/// Decoding the encoding of a byte string gives the bytes back, so the
/// encoding is one-to-one.
pub proof fn lemma_decode_encode(bytes: Seq<u8>)
    ensures
        percent_decode(percent_encode(bytes)) == bytes,
    decreases bytes.len(),
{
    if bytes.len() > 0 {
        let b = bytes[0];
        let rest = bytes.drop_first();
        assert(bytes =~= seq![b] + rest);
        lemma_encode_concat(seq![b], rest);
        assert(seq![b].drop_last() =~= Seq::<u8>::empty());
        assert(percent_encode(seq![b]) == percent_encode(Seq::<u8>::empty()) + encode_byte(b));
        assert(percent_encode(seq![b]) =~= encode_byte(b));
        let e = encode_byte(b);
        let t = e + percent_encode(rest);
        lemma_decode_encode(rest);
        if is_unreserved(b) {
            assert(t[0] == b as char);
            assert(t.subrange(1, t.len() as int) =~= percent_encode(rest));
            assert(t[0] != '%');
        } else {
            lemma_hex_roundtrip(b / 16);
            lemma_hex_roundtrip(b % 16);
            assert(t[0] == '%');
            assert(t[1] == hex_digit(b / 16));
            assert(t[2] == hex_digit(b % 16));
            assert(t.subrange(3, t.len() as int) =~= percent_encode(rest));
            assert((hex_value(t[1]) * 16 + hex_value(t[2])) as u8 == b);
        }
        assert(percent_decode(t) =~= seq![b] + rest);
    }
}

/// How one byte is written: an ASCII letter or digit, or one of `-_.~`,
/// stands for itself; any other byte becomes `%` and its two upper-case
/// hexadecimal digits, high one first.
pub proof fn lemma_encode_byte_literal(b: u8)
    ensures
        ((48 <= b <= 57) || (65 <= b <= 90) || (97 <= b <= 122) || b == 45 || b == 95 || b == 46
            || b == 126) ==> percent_encode(seq![b]) == seq![b as char],
        !((48 <= b <= 57) || (65 <= b <= 90) || (97 <= b <= 122) || b == 45 || b == 95 || b == 46
            || b == 126) ==> {
            let e = percent_encode(seq![b]);
            &&& e.len() == 3
            &&& e[0] == '%'
            &&& forall|i: int| 1 <= i < 3 ==> {
                ||| 48 <= (#[trigger] e[i] as int) <= 57
                ||| 65 <= (e[i] as int) <= 70
            }
            &&& ((e[1] as int) - (if (e[1] as int) <= 57 { 48int } else { 55int })) * 16 + ((
            e[2] as int) - (if (e[2] as int) <= 57 { 48int } else { 55int })) == b
        },
{
    reveal_with_fuel(percent_encode, 2);
    assert(seq![b].drop_last() =~= Seq::<u8>::empty());
    assert(seq![b].last() == b);
    assert(percent_encode(seq![b]) =~= encode_byte(b));
}

/// The endpoints: the search endpoint with the encoded query, and the pair
/// endpoint with the encoded chain and pair address around a `/`.
pub proof fn lemma_endpoints(q: Seq<u8>, chain: Seq<u8>, pair: Seq<u8>)
    ensures
        search_url_text(q) == "https://api.dexscreener.com/latest/dex/search?q="@ + percent_encode(q),
        pair_url_text(chain, pair) == "https://api.dexscreener.com/latest/dex/pairs/"@
            + percent_encode(chain) + "/"@ + percent_encode(pair),
{
}

} // verus!
