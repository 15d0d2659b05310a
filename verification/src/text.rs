//! Text forms of numbers and addresses.

use vstd::prelude::*;
use vstd::string::*;

verus! {

/// The character that writes the decimal digit `d`.
pub open spec fn digit_char(d: int) -> char
    recommends
        0 <= d < 10,
{
    (('0' as int) + d) as char
}

/// The decimal numeral of `n`: no sign, no leading zero, `"0"` for zero.
pub open spec fn decimal_text(n: nat) -> Seq<char>
    decreases n,
{
    if n < 10 {
        seq![digit_char(n as int)]
    } else {
        decimal_text(n / 10).push(digit_char((n % 10) as int))
    }
}

/// The dotted-quad form of an IPv4 address: its four octets in decimal,
/// separated by dots.
pub open spec fn dotted_quad_text(octets: Seq<u8>) -> Seq<char>
    recommends
        octets.len() == 4,
{
    decimal_text(octets[0] as nat) + seq!['.'] + decimal_text(octets[1] as nat) + seq!['.']
        + decimal_text(octets[2] as nat) + seq!['.'] + decimal_text(octets[3] as nat)
}

/// `"true"` or `"false"`.
pub open spec fn bool_text(b: bool) -> Seq<char> {
    if b {
        seq!['t', 'r', 'u', 'e']
    } else {
        seq!['f', 'a', 'l', 's', 'e']
    }
}

fn digit_str(d: u64) -> (s: &'static str)
    requires
        d < 10,
    ensures
        s@ == seq![digit_char(d as int)],
{
    proof {
        reveal_strlit("0");
        reveal_strlit("1");
        reveal_strlit("2");
        reveal_strlit("3");
        reveal_strlit("4");
        reveal_strlit("5");
        reveal_strlit("6");
        reveal_strlit("7");
        reveal_strlit("8");
        reveal_strlit("9");
    }
    let s: &'static str = if d == 0 {
        "0"
    } else if d == 1 {
        "1"
    } else if d == 2 {
        "2"
    } else if d == 3 {
        "3"
    } else if d == 4 {
        "4"
    } else if d == 5 {
        "5"
    } else if d == 6 {
        "6"
    } else if d == 7 {
        "7"
    } else if d == 8 {
        "8"
    } else {
        "9"
    };
    assert(s@ =~= seq![digit_char(d as int)]);
    s
}

/// Appends the decimal numeral of `n` to `out`.
pub fn push_decimal(out: &mut String, n: u64)
    ensures
        final(out)@ == old(out)@ + decimal_text(n as nat),
    decreases n,
{
    if n >= 10 {
        push_decimal(out, n / 10);
    }
    out.append(digit_str(n % 10));
}

/// The decimal numeral of `n` as a string.
pub fn decimal_string(n: u64) -> (s: String)
    ensures
        s@ == decimal_text(n as nat),
{
    let mut s = String::new();
    push_decimal(&mut s, n);
    s
}

/// Appends `"true"` or `"false"` to `out`.
pub fn push_bool(out: &mut String, b: bool)
    ensures
        final(out)@ == old(out)@ + bool_text(b),
{
    proof {
        reveal_strlit("true");
        reveal_strlit("false");
    }
    if b {
        assert("true"@ =~= bool_text(true));
        out.append("true");
    } else {
        assert("false"@ =~= bool_text(false));
        out.append("false");
    }
}

/// The dotted-quad string of an IPv4 address.
pub fn dotted_quad(octets: &[u8; 4]) -> (s: String)
    ensures
        s@ == dotted_quad_text(octets@),
{
    proof {
        reveal_strlit(".");
    }
    assert("."@ =~= seq!['.']);
    let mut s = String::new();
    push_decimal(&mut s, octets[0] as u64);
    s.append(".");
    push_decimal(&mut s, octets[1] as u64);
    s.append(".");
    push_decimal(&mut s, octets[2] as u64);
    s.append(".");
    push_decimal(&mut s, octets[3] as u64);
    s
}

/// Whether `c` is one of the ten decimal digits.
pub open spec fn is_digit(c: char) -> bool {
    '0' <= c <= '9'
}

/// The number that a run of decimal digits writes.
pub open spec fn numeral_value(digits: Seq<char>) -> nat
    decreases digits.len(),
{
    if digits.len() == 0 {
        0
    } else {
        (numeral_value(digits.drop_last()) * 10 + (digits.last() as int - '0' as int)) as nat
    }
}

/// Whether `text` writes one octet of a dotted quad: one to three decimal
/// digits, no leading zero before another digit, and at most 255.
pub open spec fn is_octet_numeral(text: Seq<char>) -> bool {
    &&& 1 <= text.len() <= 3
    &&& forall|i: int| 0 <= i < text.len() ==> is_digit(#[trigger] text[i])
    &&& text.len() > 1 ==> text[0] != '0'
    &&& numeral_value(text) <= 255
}

/// Whether `text` is a dotted quad: four octet numerals with a dot between
/// each two, and nothing else.
pub open spec fn is_dotted_quad(text: Seq<char>) -> bool {
    exists|a: Seq<char>, b: Seq<char>, c: Seq<char>, d: Seq<char>|
        {
            &&& is_octet_numeral(a)
            &&& is_octet_numeral(b)
            &&& is_octet_numeral(c)
            &&& is_octet_numeral(d)
            &&& text == #[trigger] quad_of(a, b, c, d)
        }
}

/// Four texts with a dot between each two.
pub open spec fn quad_of(a: Seq<char>, b: Seq<char>, c: Seq<char>, d: Seq<char>) -> Seq<char> {
    a + seq!['.'] + b + seq!['.'] + c + seq!['.'] + d
}

/// The decimal numeral of `n` is made of digits, starts with a zero only
/// where `n` is zero, and writes `n`.
pub proof fn lemma_decimal_text(n: nat)
    ensures
        decimal_text(n).len() >= 1,
        forall|i: int| 0 <= i < decimal_text(n).len() ==> is_digit(#[trigger] decimal_text(n)[i]),
        n > 0 ==> decimal_text(n)[0] != '0',
        numeral_value(decimal_text(n)) == n,
    decreases n,
{
    if n < 10 {
        assert(decimal_text(n).drop_last() =~= Seq::<char>::empty());
        assert(numeral_value(decimal_text(n).drop_last()) == 0);
    } else {
        let front = decimal_text(n / 10);
        lemma_decimal_text(n / 10);
        assert(decimal_text(n).drop_last() =~= front);
    }
}

/// The decimal numeral of an octet is an octet numeral.
pub proof fn lemma_octet_numeral(octet: u8)
    ensures
        is_octet_numeral(decimal_text(octet as nat)),
{
    let n = octet as nat;
    lemma_decimal_text(n);
    reveal_with_fuel(decimal_text, 3);
    if n >= 100 {
        assert((n / 10) / 10 < 10);
    }
}

/// The dotted-quad form of every IPv4 address is a dotted quad.
pub proof fn lemma_dotted_quad_is_valid(octets: Seq<u8>)
    requires
        octets.len() == 4,
    ensures
        is_dotted_quad(dotted_quad_text(octets)),
{
    lemma_octet_numeral(octets[0]);
    lemma_octet_numeral(octets[1]);
    lemma_octet_numeral(octets[2]);
    lemma_octet_numeral(octets[3]);
    assert(dotted_quad_text(octets) == quad_of(
        decimal_text(octets[0] as nat),
        decimal_text(octets[1] as nat),
        decimal_text(octets[2] as nat),
        decimal_text(octets[3] as nat),
    ));
}

} // verus!
