//! Query strings: `key=value` pairs in `application/x-www-form-urlencoded`
//! form, joined by `&`.

use vstd::prelude::*;
use vstd::string::*;
use vstd::utf8::encode_utf8;

use crate::text::push_char;

verus! {

/// Bytes that stand for themselves in a query: ASCII letters and digits and
/// the four marks `*`, `-`, `.` and `_`.
pub open spec fn is_unreserved(b: u8) -> bool {
    ||| 0x30 <= b <= 0x39
    ||| 0x41 <= b <= 0x5a
    ||| 0x61 <= b <= 0x7a
    ||| b == 0x2a
    ||| b == 0x2d
    ||| b == 0x2e
    ||| b == 0x5f
}

/// The upper-case hexadecimal digit for a value below sixteen.
pub open spec fn hex_digit(n: u8) -> char
    recommends
        n < 16,
{
    if n < 10 {
        (0x30 + n) as char
    } else {
        (0x37 + n) as char
    }
}

/// The encoding of one byte: itself if unreserved, `+` for a space, and
/// otherwise `%` followed by its two hexadecimal digits.
pub open spec fn encode_byte(b: u8) -> Seq<char> {
    if is_unreserved(b) {
        seq![b as char]
    } else if b == 0x20 {
        seq!['+']
    } else {
        seq!['%', hex_digit(b / 16), hex_digit(b % 16)]
    }
}

/// The encodings of the bytes, one after the other.
pub open spec fn encode_bytes(bytes: Seq<u8>) -> Seq<char>
    decreases bytes.len(),
{
    if bytes.len() == 0 {
        Seq::empty()
    } else {
        encode_bytes(bytes.drop_last()) + encode_byte(bytes.last())
    }
}

/// The encoding of a text: that of its UTF-8 bytes.
pub open spec fn encode_text(text: Seq<char>) -> Seq<char> {
    encode_bytes(encode_utf8(text))
}

/// The decimal digit for a value below ten.
pub open spec fn digit_char(d: nat) -> char
    recommends
        d < 10,
{
    (0x30 + d) as char
}

/// The decimal numeral of a number, without leading zeros.
pub open spec fn decimal(n: nat) -> Seq<char>
    decreases n,
{
    if n < 10 {
        seq![digit_char(n)]
    } else {
        decimal(n / 10).push(digit_char(n % 10))
    }
}

/// The options of a query before encoding: keys with their values, in the
/// order in which they are sent.
pub type QueryPairs = Seq<(Seq<char>, Seq<char>)>;

/// One `key=value` item of a query, both sides encoded.
pub open spec fn query_item(pair: (Seq<char>, Seq<char>)) -> Seq<char> {
    encode_text(pair.0) + seq!['='] + encode_text(pair.1)
}

/// The query string of a list of pairs: their items in order, each two
/// neighbours separated by one `&`. No pairs give the empty string.
pub open spec fn query_of(pairs: QueryPairs) -> Seq<char>
    decreases pairs.len(),
{
    if pairs.len() == 0 {
        Seq::empty()
    } else if pairs.len() == 1 {
        query_item(pairs[0])
    } else {
        query_of(pairs.drop_last()) + seq!['&'] + query_item(pairs.last())
    }
}

/// Appends the hexadecimal digit of `n`.
fn push_hex_digit(out: &mut String, n: u8)
    requires
        n < 16,
    ensures
        final(out)@ == old(out)@.push(hex_digit(n)),
{
    let c = if n < 10 {
        (0x30 + n) as char
    } else {
        (0x37 + n) as char
    };
    push_char(out, c);
}

/// Appends the encoding of one byte.
fn push_encoded_byte(out: &mut String, b: u8)
    ensures
        final(out)@ == old(out)@ + encode_byte(b),
{
    let unreserved = (0x30 <= b && b <= 0x39) || (0x41 <= b && b <= 0x5a) || (0x61 <= b && b
        <= 0x7a) || b == 0x2a || b == 0x2d || b == 0x2e || b == 0x5f;
    if unreserved {
        push_char(out, b as char);
    } else if b == 0x20 {
        push_char(out, '+');
    } else {
        push_char(out, '%');
        push_hex_digit(out, b / 16);
        push_hex_digit(out, b % 16);
    }
}

/// Appends the encoding of `text` to `out`.
pub fn push_encoded(out: &mut String, text: &str)
    ensures
        final(out)@ == old(out)@ + encode_text(text@),
{
    let bytes = text.as_bytes();
    let mut i: usize = 0;
    while i < bytes.len()
        invariant
            i <= bytes.len(),
            bytes@ == encode_utf8(text@),
            out@ == old(out)@ + encode_bytes(bytes@.take(i as int)),
        decreases bytes.len() - i,
    {
        push_encoded_byte(out, bytes[i]);
        assert(bytes@.take(i as int + 1).drop_last() =~= bytes@.take(i as int));
        i += 1;
    }
    assert(bytes@.take(i as int) =~= bytes@);
}

/// The encoding of `text` as a string of its own.
pub fn encode(text: &str) -> (r: String)
    ensures
        r@ == encode_text(text@),
{
    let mut out = String::new();
    push_encoded(&mut out, text);
    out
}

/// Appends the decimal numeral of `n` to `out`.
pub fn push_decimal(out: &mut String, n: u32)
    ensures
        final(out)@ == old(out)@ + decimal(n as nat),
    decreases n,
{
    if n >= 10 {
        push_decimal(out, n / 10);
    }
    let d: u8 = (n % 10) as u8;
    push_char(out, (0x30 + d) as char);
}

/// The decimal numeral of `n`.
pub fn decimal_string(n: u32) -> (r: String)
    ensures
        r@ == decimal(n as nat),
{
    let mut out = String::new();
    push_decimal(&mut out, n);
    out
}

/// A character that an encoded text can hold: a letter, a digit, or one of
/// `*`, `-`, `.`, `_`, `+` and `%`.
pub open spec fn is_encoded_char(c: char) -> bool {
    ||| '0' <= c <= '9'
    ||| 'A' <= c <= 'Z'
    ||| 'a' <= c <= 'z'
    ||| c == '*'
    ||| c == '-'
    ||| c == '.'
    ||| c == '_'
    ||| c == '+'
    ||| c == '%'
}

/// A query without stray separators: it holds no `?`, it neither starts nor
/// ends with `&`, and no `&` follows another.
pub open spec fn well_separated(query: Seq<char>) -> bool {
    &&& forall|i: int| 0 <= i < query.len() ==> query[i] != '?'
    &&& query.len() > 0 ==> query[0] != '&' && query.last() != '&'
    &&& forall|i: int| 0 < i < query.len() && #[trigger] query[i] == '&' ==> query[i - 1] != '&'
}

/// An encoded text holds nothing but letters, digits and the marks `*`, `-`,
/// `.`, `_`, `+` and `%`: no `&`, `=` or `?` survives the encoding.
pub proof fn lemma_encoded_chars(bytes: Seq<u8>)
    ensures
        forall|i: int|
            0 <= i < encode_bytes(bytes).len() ==> is_encoded_char(
                #[trigger] encode_bytes(bytes)[i],
            ),
    decreases bytes.len(),
{
    if bytes.len() > 0 {
        lemma_encoded_chars(bytes.drop_last());
        let front = encode_bytes(bytes.drop_last());
        let tail = encode_byte(bytes.last());
        let all = encode_bytes(bytes);
        assert forall|i: int| 0 <= i < all.len() implies is_encoded_char(#[trigger] all[i]) by {
            if i < front.len() {
                assert(all[i] == front[i]);
            } else {
                assert(all[i] == tail[i - front.len()]);
            }
        }
    }
}

/// An item holds exactly one `=`, so it is never empty, and apart from that
/// `=` only encoded characters.
pub proof fn lemma_item_shape(pair: (Seq<char>, Seq<char>))
    ensures
        query_item(pair).len() > 0,
        forall|i: int|
            0 <= i < query_item(pair).len() ==> {
                let c = #[trigger] query_item(pair)[i];
                c == '=' || is_encoded_char(c)
            },
{
    lemma_encoded_chars(encode_utf8(pair.0));
    lemma_encoded_chars(encode_utf8(pair.1));
}

/// A query is empty exactly when it was made of no pairs.
pub proof fn lemma_query_empty_iff_no_pairs(pairs: QueryPairs)
    ensures
        query_of(pairs).len() == 0 <==> pairs.len() == 0,
    decreases pairs.len(),
{
    if pairs.len() == 1 {
        lemma_item_shape(pairs[0]);
    } else if pairs.len() > 1 {
        lemma_item_shape(pairs.last());
    }
}

/// However many pairs a query is made of, and whatever they hold, it has no
/// stray separator.
pub proof fn lemma_query_well_separated(pairs: QueryPairs)
    ensures
        well_separated(query_of(pairs)),
    decreases pairs.len(),
{
    if pairs.len() == 1 {
        lemma_item_shape(pairs[0]);
    } else if pairs.len() > 1 {
        lemma_query_well_separated(pairs.drop_last());
        lemma_query_empty_iff_no_pairs(pairs.drop_last());
        lemma_item_shape(pairs.last());
    }
}

/// Appends one pair to the query of the pairs before it.
pub(crate) fn append_pair(
    query: &mut String,
    key: &str,
    value: &str,
    Ghost(pairs): Ghost<QueryPairs>,
)
    requires
        old(query)@ == query_of(pairs),
    ensures
        final(query)@ == query_of(pairs.push((key@, value@))),
{
    proof {
        lemma_query_empty_iff_no_pairs(pairs);
    }
    if !query.as_str().is_empty() {
        push_char(query, '&');
    }
    push_encoded(query, key);
    push_char(query, '=');
    push_encoded(query, value);
    assert(pairs.push((key@, value@)).drop_last() =~= pairs);
}

} // verus!
