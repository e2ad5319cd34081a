//! Query strings: decimal numbers, percent-escaping, and `key=value` pairs
//! joined by `&`.

use vstd::prelude::*;
use vstd::string::*;
use vstd::utf8::encode_utf8;

verus! {

/// One `key=value` entry of a query, before escaping.
pub struct QueryPair {
    pub key: String,
    pub value: String,
}

impl View for QueryPair {
    type V = (Seq<char>, Seq<char>);

    open spec fn view(&self) -> (Seq<char>, Seq<char>) {
        (self.key@, self.value@)
    }
}

/// The views of a vector of pairs, in order.
pub open spec fn pairs_view(pairs: Seq<QueryPair>) -> Seq<(Seq<char>, Seq<char>)> {
    Seq::new(pairs.len(), |i: int| pairs[i]@)
}

/// The character of a decimal digit.
pub open spec fn digit_char(d: int) -> char {
    if d == 0 {
        '0'
    } else if d == 1 {
        '1'
    } else if d == 2 {
        '2'
    } else if d == 3 {
        '3'
    } else if d == 4 {
        '4'
    } else if d == 5 {
        '5'
    } else if d == 6 {
        '6'
    } else if d == 7 {
        '7'
    } else if d == 8 {
        '8'
    } else {
        '9'
    }
}

/// The character of a hexadecimal digit, in upper case.
pub open spec fn hex_char(d: int) -> char {
    if d < 10 {
        digit_char(d)
    } else if d == 10 {
        'A'
    } else if d == 11 {
        'B'
    } else if d == 12 {
        'C'
    } else if d == 13 {
        'D'
    } else if d == 14 {
        'E'
    } else {
        'F'
    }
}

/// A natural number in decimal, without leading zeros.
pub open spec fn decimal(n: nat) -> Seq<char>
    decreases n,
{
    if n < 10 {
        seq![digit_char(n as int)]
    } else {
        decimal(n / 10).push(digit_char((n % 10) as int))
    }
}

/// An integer in decimal, with a minus sign where it is negative.
pub open spec fn signed_decimal(n: int) -> Seq<char> {
    if n < 0 {
        seq!['-'] + decimal((-n) as nat)
    } else {
        decimal(n as nat)
    }
}

/// The bytes that a query string carries as they are: ASCII letters and
/// digits, `-`, `.`, `_` and `~`.
pub open spec fn is_unreserved(b: u8) -> bool {
    ||| 0x41 <= b <= 0x5a
    ||| 0x61 <= b <= 0x7a
    ||| 0x30 <= b <= 0x39
    ||| b == 0x2d
    ||| b == 0x2e
    ||| b == 0x5f
    ||| b == 0x7e
}

/// One byte as it stands in a query string: itself, or `%` and two
/// hexadecimal digits.
pub open spec fn escaped_byte(b: u8) -> Seq<char> {
    if is_unreserved(b) {
        seq![b as char]
    } else {
        seq!['%', hex_char(b as int / 16), hex_char(b as int % 16)]
    }
}

/// A byte string with every byte escaped.
pub open spec fn percent_encoded(bytes: Seq<u8>) -> Seq<char>
    decreases bytes.len(),
{
    if bytes.len() == 0 {
        Seq::empty()
    } else {
        percent_encoded(bytes.drop_last()) + escaped_byte(bytes.last())
    }
}

/// A text as a query value: its UTF-8 bytes, escaped.
pub open spec fn escaped_text(text: Seq<char>) -> Seq<char> {
    percent_encoded(encode_utf8(text))
}

/// The query string of a sequence of pairs: `key=value` entries in order,
/// joined by `&`, keys as they are and values escaped.
pub open spec fn rendered(pairs: Seq<(Seq<char>, Seq<char>)>) -> Seq<char>
    decreases pairs.len(),
{
    if pairs.len() == 0 {
        Seq::empty()
    } else {
        let joint = if pairs.len() == 1 {
            Seq::<char>::empty()
        } else {
            seq!['&']
        };
        rendered(pairs.drop_last()) + joint + pairs.last().0 + seq!['='] + escaped_text(
            pairs.last().1,
        )
    }
}

/// `String::push` of std: the string grows by the one character given, at
/// its end.
#[verifier::external_body]
fn push_char(out: &mut String, c: char)
    ensures
        final(out)@ == old(out)@.push(c),
{
    out.push(c)
}

/// The character of a decimal digit.
fn digit_of(d: u8) -> (c: char)
    requires
        d < 10,
    ensures
        c == digit_char(d as int),
{
    if d == 0 {
        '0'
    } else if d == 1 {
        '1'
    } else if d == 2 {
        '2'
    } else if d == 3 {
        '3'
    } else if d == 4 {
        '4'
    } else if d == 5 {
        '5'
    } else if d == 6 {
        '6'
    } else if d == 7 {
        '7'
    } else if d == 8 {
        '8'
    } else {
        '9'
    }
}

/// The character of a hexadecimal digit, in upper case.
fn hex_of(d: u8) -> (c: char)
    requires
        d < 16,
    ensures
        c == hex_char(d as int),
{
    if d < 10 {
        digit_of(d)
    } else if d == 10 {
        'A'
    } else if d == 11 {
        'B'
    } else if d == 12 {
        'C'
    } else if d == 13 {
        'D'
    } else if d == 14 {
        'E'
    } else {
        'F'
    }
}

/// Tests whether a byte is carried as it is.
fn unreserved(b: u8) -> (r: bool)
    ensures
        r == is_unreserved(b),
{
    (0x41 <= b && b <= 0x5a) || (0x61 <= b && b <= 0x7a) || (0x30 <= b && b <= 0x39) || b == 0x2d
        || b == 0x2e || b == 0x5f || b == 0x7e
}

/// Appends a number in decimal.
fn push_decimal(out: &mut String, n: u64)
    ensures
        final(out)@ == old(out)@ + decimal(n as nat),
    decreases n,
{
    if n >= 10 {
        push_decimal(out, n / 10);
    }
    let d: u8 = (n % 10) as u8;
    push_char(out, digit_of(d));
}

/// Writes an unsigned number in decimal.
pub fn format_u64(n: u64) -> (text: String)
    ensures
        text@ == decimal(n as nat),
{
    let mut text = String::new();
    push_decimal(&mut text, n);
    text
}

/// Writes a signed number in decimal.
pub fn format_i64(n: i64) -> (text: String)
    ensures
        text@ == signed_decimal(n as int),
{
    let mut text = String::new();
    if n < 0 {
        push_char(&mut text, '-');
        let below: u64 = (-(n + 1)) as u64;
        push_decimal(&mut text, below + 1);
    } else {
        push_decimal(&mut text, n as u64);
    }
    text
}

/// Escapes a text for use as a query value.
pub fn percent_encode(text: &str) -> (escaped: String)
    ensures
        escaped@ == escaped_text(text@),
{
    let bytes = text.as_bytes();
    let mut escaped = String::new();
    let mut i: usize = 0;
    while i < bytes.len()
        invariant
            i <= bytes@.len(),
            bytes@ == encode_utf8(text@),
            escaped@ == percent_encoded(bytes@.take(i as int)),
        decreases bytes@.len() - i,
    {
        let b: u8 = bytes[i];
        proof {
            assert(bytes@.take(i + 1).drop_last() == bytes@.take(i as int));
            assert(bytes@.take(i + 1).last() == b);
        }
        if unreserved(b) {
            push_char(&mut escaped, b as char);
        } else {
            push_char(&mut escaped, '%');
            push_char(&mut escaped, hex_of(b / 16));
            push_char(&mut escaped, hex_of(b % 16));
        }
        i += 1;
    }
    proof {
        assert(bytes@.take(i as int) == bytes@);
    }
    escaped
}

/// Joins pairs into a query string.
pub fn render(pairs: &Vec<QueryPair>) -> (query: String)
    ensures
        query@ == rendered(pairs_view(pairs@)),
{
    let mut query = String::new();
    let mut i: usize = 0;
    while i < pairs.len()
        invariant
            i <= pairs@.len(),
            query@ == rendered(pairs_view(pairs@).take(i as int)),
        decreases pairs@.len() - i,
    {
        proof {
            let all = pairs_view(pairs@);
            assert(all.take(i + 1).drop_last() == all.take(i as int));
            assert(all.take(i + 1).last() == pairs@[i as int]@);
        }
        if i > 0 {
            push_char(&mut query, '&');
        }
        query.append(pairs[i].key.as_str());
        push_char(&mut query, '=');
        let value = percent_encode(pairs[i].value.as_str());
        query.append(value.as_str());
        i += 1;
    }
    proof {
        assert(pairs_view(pairs@).take(i as int) == pairs_view(pairs@));
    }
    query
}

/// Whether a text is made of unreserved characters alone.
pub open spec fn is_plain(text: Seq<char>) -> bool {
    forall|i: int|
        0 <= i < text.len() ==> '\0' <= #[trigger] text[i] <= '\u{7f}' && is_unreserved(
            text[i] as u8,
        )
}

/// Bytes that are all unreserved stand as they are.
pub proof fn lemma_unreserved_bytes_unescaped(bytes: Seq<u8>)
    requires
        forall|i: int| 0 <= i < bytes.len() ==> is_unreserved(#[trigger] bytes[i]),
    ensures
        percent_encoded(bytes).len() == bytes.len(),
        forall|i: int| 0 <= i < bytes.len() ==> #[trigger] percent_encoded(bytes)[i] == bytes[i] as char,
    decreases bytes.len(),
{
    if bytes.len() > 0 {
        lemma_unreserved_bytes_unescaped(bytes.drop_last());
    }
}

/// A text made of unreserved characters alone is a query value as it is.
pub proof fn lemma_plain_text_unescaped(text: Seq<char>)
    requires
        is_plain(text),
    ensures
        escaped_text(text) == text,
{
    vstd::utf8::is_ascii_chars_encode_utf8(text);
    let bytes = encode_utf8(text);
    assert forall|i: int| 0 <= i < bytes.len() implies is_unreserved(#[trigger] bytes[i]) by {
        assert(bytes[i] == text[i] as u8);
    }
    lemma_unreserved_bytes_unescaped(bytes);
    assert forall|i: int| 0 <= i < text.len() implies percent_encoded(bytes)[i] == text[i] by {
        assert(bytes[i] == text[i] as u8);
        assert((text[i] as u8) as char == text[i]);
    }
    assert(escaped_text(text) =~= text);
}

/// A number in decimal is made of unreserved characters alone.
pub proof fn lemma_decimal_plain(n: nat)
    ensures
        is_plain(decimal(n)),
    decreases n,
{
    if n >= 10 {
        lemma_decimal_plain(n / 10);
    }
}

/// A number in decimal is a query value as it is.
pub proof fn lemma_decimal_unescaped(n: nat)
    ensures
        escaped_text(decimal(n)) == decimal(n),
{
    lemma_decimal_plain(n);
    lemma_plain_text_unescaped(decimal(n));
}

} // verus!
