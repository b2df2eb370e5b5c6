//! Hexadecimal text and the bytes it stands for.

use vstd::prelude::*;

verus! {

/// One of the characters `0-9`, `a-f`, `A-F`.
pub open spec fn is_hex_digit(c: char) -> bool {
    ('0' <= c && c <= '9') || ('a' <= c && c <= 'f') || ('A' <= c && c <= 'F')
}

/// The blanks that decoding passes over: space, carriage return, line feed, tab.
pub open spec fn is_hex_blank(c: char) -> bool {
    c == ' ' || c == '\r' || c == '\n' || c == '\t'
}

/// The number, below 16, that a hexadecimal digit stands for.
pub open spec fn hex_digit_value(c: char) -> int {
    if '0' <= c && c <= '9' {
        c as int - '0' as int
    } else if 'a' <= c && c <= 'f' {
        c as int - 'a' as int + 10
    } else {
        c as int - 'A' as int + 10
    }
}

/// The lower-case digit for a number below 16.
pub open spec fn lower_hex_digit(v: int) -> char {
    if v < 10 {
        ('0' as int + v) as char
    } else {
        ('a' as int + v - 10) as char
    }
}

/// A digit with `A-F` turned into `a-f`; any other character unchanged.
pub open spec fn lower_hex_char(c: char) -> char {
    if 'A' <= c && c <= 'F' {
        (c as int - 'A' as int + 'a' as int) as char
    } else {
        c
    }
}

/// The text without its blanks.
pub open spec fn hex_digits(s: Seq<char>) -> Seq<char> {
    s.filter(|c: char| !is_hex_blank(c))
}

/// Text that decodes: digits and blanks only, with an even number of digits.
pub open spec fn is_hex_text(s: Seq<char>) -> bool {
    &&& forall|i: int| 0 <= i < s.len() ==> is_hex_digit(#[trigger] s[i]) || is_hex_blank(s[i])
    &&& hex_digits(s).len() % 2 == 0
}

/// The bytes that a decodable text stands for: one for each pair of digits,
/// the first digit of a pair being the high half.
pub open spec fn hex_bytes(s: Seq<char>) -> Seq<u8> {
    let d = hex_digits(s);
    Seq::new(
        (d.len() / 2) as nat,
        |k: int| (hex_digit_value(d[2 * k]) * 16 + hex_digit_value(d[2 * k + 1])) as u8,
    )
}

/// The lower-case text for a sequence of bytes, two digits for each.
pub open spec fn hex_text(b: Seq<u8>) -> Seq<char> {
    Seq::new(
        2 * b.len(),
        |i: int|
            if i % 2 == 0 {
                lower_hex_digit(b[i / 2] as int / 16)
            } else {
                lower_hex_digit(b[i / 2] as int % 16)
            },
    )
}

/// The text with every digit in lower case.
pub open spec fn lower_hex_text(s: Seq<char>) -> Seq<char> {
    Seq::new(s.len(), |i: int| lower_hex_char(s[i]))
}

/// The index, from `i` on, of the first character that is neither a digit
/// nor a blank; the length of the text where there is none.
pub open spec fn first_bad_from(s: Seq<char>, i: int) -> int
    decreases s.len() - i,
{
    if 0 <= i < s.len() && (is_hex_digit(s[i]) || is_hex_blank(s[i])) {
        first_bad_from(s, i + 1)
    } else {
        i
    }
}

/// A number in decimal digits.
pub open spec fn decimal_text(n: nat) -> Seq<char>
    decreases n,
{
    if n < 10 {
        seq![('0' as int + n) as char]
    } else {
        decimal_text(n / 10).push(('0' as int + n % 10) as char)
    }
}

/// The complaint about a character that has no place in hexadecimal text.
pub open spec fn bad_character_text(c: char, position: nat) -> Seq<char> {
    "Invalid character '"@ + seq![c] + "' at position "@ + decimal_text(position)
}

/// The complaint about a digit that is left without its pair.
pub open spec fn bad_length_text() -> Seq<char> {
    "Invalid input length"@
}

/// The complaint about a text that does not decode: about the first
/// character that has no place in it or, where every character has, about
/// its length.
pub open spec fn hex_error_text(s: Seq<char>) -> Seq<char> {
    let i = first_bad_from(s, 0);
    if i < s.len() {
        bad_character_text(s[i], i as nat)
    } else {
        bad_length_text()
    }
}

/// Calls `rustc_hex::FromHex::from_hex` on the text. The crate walks the
/// text once: blanks are passed over, every two digits give one byte, and it
/// stops with an error at the first character that is neither; a digit left
/// unpaired at the end is an error too. The error comes back as the text
/// that its `Display` writes: the character and its position, or a remark
/// on the length.
#[verifier::external_body]
pub(crate) fn from_hex(s: &str) -> (r: Result<Vec<u8>, String>)
    ensures
        is_hex_text(s@) ==> r is Ok && r->Ok_0@ == hex_bytes(s@),
        !is_hex_text(s@) ==> r is Err && r->Err_0@ == hex_error_text(s@),
{
    match rustc_hex::FromHex::from_hex(s) {
        Ok(bytes) => Ok(bytes),
        Err(e) => Err(format!("{}", e)),
    }
}

/// Calls `parity_bytes::ToPretty::to_hex` on the bytes, which writes each
/// byte as two lower-case hexadecimal digits.
#[verifier::external_body]
pub(crate) fn to_hex(bytes: &Vec<u8>) -> (r: String)
    ensures
        r@ == hex_text(bytes@),
{
    parity_bytes::ToPretty::to_hex(bytes)
}

/// Every character that is left after the blanks are taken out is a digit.
pub proof fn lemma_hex_digits_are_digits(s: Seq<char>)
    requires
        is_hex_text(s),
    ensures
        forall|j: int| 0 <= j < hex_digits(s).len() ==> is_hex_digit(#[trigger] hex_digits(s)[j]),
{
    let pred = |c: char| !is_hex_blank(c);
    assert forall|j: int| 0 <= j < hex_digits(s).len() implies is_hex_digit(
        #[trigger] hex_digits(s)[j],
    ) by {
        let c = hex_digits(s)[j];
        s.lemma_filter_pred(pred, j);
        assert(s.filter(pred).contains(c));
        s.lemma_filter_contains_rev(pred, c);
        let i = choose|i: int| 0 <= i < s.len() && s[i] == c;
        assert(is_hex_digit(s[i]) || is_hex_blank(s[i]));
        assert(pred(c));
    }
}

/// Decoding a text and encoding the bytes gives back the digits of the text,
/// in lower case and without the blanks.
pub proof fn lemma_decode_encode(s: Seq<char>)
    requires
        is_hex_text(s),
    ensures
        hex_text(hex_bytes(s)) == lower_hex_text(hex_digits(s)),
{
    lemma_hex_digits_are_digits(s);
    let d = hex_digits(s);
    let b = hex_bytes(s);
    assert(hex_text(b).len() == d.len());
    assert forall|i: int| 0 <= i < d.len() implies hex_text(b)[i] == lower_hex_text(d)[i] by {
        let k = i / 2;
        assert(is_hex_digit(d[2 * k]));
        assert(is_hex_digit(d[2 * k + 1]));
        let hi = hex_digit_value(d[2 * k]);
        let lo = hex_digit_value(d[2 * k + 1]);
        assert(0 <= hi < 16 && 0 <= lo < 16);
        assert(b[k] as int == hi * 16 + lo);
        assert(lower_hex_digit(hi) == lower_hex_char(d[2 * k]));
        assert(lower_hex_digit(lo) == lower_hex_char(d[2 * k + 1]));
    }
    assert(hex_text(b) =~= lower_hex_text(d));
}

/// A text of digits alone, an even number of them, decodes, and encoding the
/// bytes gives the same text in lower case.
pub proof fn lemma_round_trip(s: Seq<char>)
    requires
        forall|i: int| 0 <= i < s.len() ==> is_hex_digit(#[trigger] s[i]),
        s.len() % 2 == 0,
    ensures
        is_hex_text(s),
        hex_text(hex_bytes(s)) == lower_hex_text(s),
{
    lemma_digits_alone(s);
    lemma_decode_encode(s);
}

/// A text without blanks is its own sequence of digits.
pub proof fn lemma_digits_alone(s: Seq<char>)
    requires
        forall|i: int| 0 <= i < s.len() ==> !is_hex_blank(#[trigger] s[i]),
    ensures
        hex_digits(s) == s,
    decreases s.len(),
{
    reveal(Seq::filter);
    if s.len() > 0 {
        let t = s.drop_last();
        assert forall|i: int| 0 <= i < t.len() implies !is_hex_blank(#[trigger] t[i]) by {
            assert(t[i] == s[i]);
        }
        lemma_digits_alone(t);
        assert(!is_hex_blank(s.last()));
        assert(hex_digits(s) =~= t.push(s.last()));
        assert(t.push(s.last()) =~= s);
    } else {
        assert(hex_digits(s) =~= s);
    }
}

} // verus!
