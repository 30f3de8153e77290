//! Text as it is read from the wire.

use vstd::prelude::*;
use vstd::utf8::{decode_utf8, valid_utf8};

verus! {

/// The text that `String::from_utf8_lossy` makes of a byte sequence.
pub uninterp spec fn utf8_lossy(bytes: Seq<u8>) -> Seq<char>;

/// Calls std's `String::from_utf8_lossy` and owns the result. The contract
/// names the text that comes back, and claims of it what std documents: bytes
/// that are valid UTF-8 are decoded as they are.
#[verifier::external_body]
pub(crate) fn string_from_utf8_lossy(bytes: &[u8]) -> (text: String)
    ensures
        text@ == utf8_lossy(bytes@),
        valid_utf8(bytes@) ==> text@ == decode_utf8(bytes@),
{
    String::from_utf8_lossy(bytes).into_owned()
}

/// The ASCII digit for a number below ten.
pub open spec fn digit(d: nat) -> u8
    recommends
        d < 10,
{
    (0x30 + d) as u8
}

/// Whether a byte is an ASCII digit.
pub open spec fn is_digit(b: u8) -> bool {
    0x30 <= b <= 0x39
}

/// The decimal digits of a number, in ASCII, without leading zeros.
pub open spec fn decimal(n: nat) -> Seq<u8>
    decreases n,
{
    if n < 10 {
        seq![digit(n)]
    } else {
        decimal(n / 10).push(digit(n % 10))
    }
}

/// The number that a sequence of ASCII digits spells.
pub open spec fn decimal_value(s: Seq<u8>) -> nat
    decreases s.len(),
{
    if s.len() == 0 {
        0
    } else {
        decimal_value(s.drop_last()) * 10 + (s.last() - 0x30) as nat
    }
}

/// Whether `s` is a number written out in decimal digits without a leading
/// zero.
pub open spec fn is_decimal(s: Seq<u8>) -> bool {
    &&& s.len() > 0
    &&& forall|i: int| 0 <= i < s.len() ==> is_digit(#[trigger] s[i])
    &&& s.len() > 1 ==> s[0] != 0x30
}

/// The number below 2^32 that `s` writes out, where it writes one out.
pub open spec fn parse_decimal(s: Seq<u8>) -> Option<u32> {
    if is_decimal(s) && decimal_value(s) <= u32::MAX {
        Some(decimal_value(s) as u32)
    } else {
        None
    }
}

/// The digits of a number are decimal, and spell it.
pub proof fn lemma_decimal_spells(n: nat)
    ensures
        is_decimal(decimal(n)),
        decimal_value(decimal(n)) == n,
        n > 0 ==> decimal(n)[0] != 0x30,
    decreases n,
{
    if n >= 10 {
        lemma_decimal_spells(n / 10);
        let head = decimal(n / 10);
        assert(decimal(n).drop_last() =~= head);
        assert(decimal(n)[0] == head[0]);
        assert(decimal(n).last() == digit(n % 10));
        assert(decimal_value(decimal(n)) == decimal_value(head) * 10 + (n % 10));
    } else {
        assert(decimal(n).drop_last().len() == 0);
        assert(decimal_value(decimal(n).drop_last()) == 0);
        assert(decimal(n).last() == digit(n));
    }
}

/// A number written out in decimal is written with its digits.
pub proof fn lemma_decimal_unique(s: Seq<u8>)
    requires
        is_decimal(s),
    ensures
        decimal(decimal_value(s)) == s,
    decreases s.len(),
{
    if s.len() == 1 {
        assert(s.drop_last().len() == 0);
        assert(decimal_value(s.drop_last()) == 0);
        assert(decimal(decimal_value(s)) =~= s);
    } else {
        let head = s.drop_last();
        assert(is_decimal(head)) by {
            assert forall|i: int| 0 <= i < head.len() implies is_digit(#[trigger] head[i]) by {
                assert(head[i] == s[i]);
            }
        }
        lemma_decimal_unique(head);
        lemma_decimal_positive(head);
        let v = decimal_value(head);
        let d = (s.last() - 0x30) as nat;
        assert((v * 10 + d) / 10 == v);
        assert((v * 10 + d) % 10 == d);
        assert(decimal(decimal_value(s)) =~= s);
    }
}

/// Digits that begin with a digit other than zero spell a positive number.
pub proof fn lemma_decimal_positive(s: Seq<u8>)
    requires
        s.len() > 0,
        forall|i: int| 0 <= i < s.len() ==> is_digit(#[trigger] s[i]),
        s[0] != 0x30,
    ensures
        decimal_value(s) > 0,
    decreases s.len(),
{
    if s.len() > 1 {
        let head = s.drop_last();
        assert(head[0] == s[0]);
        assert forall|i: int| 0 <= i < head.len() implies is_digit(#[trigger] head[i]) by {
            assert(head[i] == s[i]);
        }
        lemma_decimal_positive(head);
    } else {
        assert(s.drop_last().len() == 0);
        assert(decimal_value(s.drop_last()) == 0);
        assert(s.last() == s[0]);
    }
}

/// Writing a number below 2^32 out and reading it back gives the number, and
/// only its digits read as that number.
pub proof fn lemma_parse_decimal(n: u32, s: Seq<u8>)
    ensures
        parse_decimal(decimal(n as nat)) == Some(n),
        parse_decimal(s) == Some(n) ==> s == decimal(n as nat),
{
    lemma_decimal_spells(n as nat);
    if parse_decimal(s) == Some(n) {
        lemma_decimal_unique(s);
    }
}

/// The decimal digits of `n`.
pub fn to_decimal_u128(n: u128) -> (digits: Vec<u8>)
    ensures
        digits@ == decimal(n as nat),
{
    let mut reversed: Vec<u8> = Vec::new();
    let mut rest: u128 = n;
    reversed.push((0x30 + rest % 10) as u8);
    rest = rest / 10;
    while rest > 0
        invariant
            reversed@.len() > 0,
            decimal(n as nat) =~= if rest == 0 {
                reversed@.reverse()
            } else {
                decimal(rest as nat) + reversed@.reverse()
            },
        decreases rest,
    {
        proof {
            let ghost before = reversed@;
            assert(before.push(digit((rest % 10) as nat)).reverse() =~= seq![
                digit((rest % 10) as nat),
            ] + before.reverse());
        }
        reversed.push((0x30 + rest % 10) as u8);
        rest = rest / 10;
    }
    let mut digits: Vec<u8> = Vec::new();
    let mut i: usize = reversed.len();
    while i > 0
        invariant
            i <= reversed@.len(),
            digits@.len() == reversed@.len() - i,
            forall|j: int| 0 <= j < digits@.len() ==> digits@[j] == reversed@[reversed@.len() - 1 - j],
        decreases i,
    {
        i -= 1;
        digits.push(reversed[i]);
    }
    assert(digits@ =~= reversed@.reverse());
    digits
}

/// The decimal digits of `n`.
pub fn to_decimal(n: u32) -> (digits: Vec<u8>)
    ensures
        digits@ == decimal(n as nat),
{
    to_decimal_u128(n as u128)
}

/// The two hexadecimal digits of a byte, in lower or in upper case.
pub open spec fn hex_of_byte(b: u8, upper: bool) -> Seq<u8> {
    seq![hex_digit((b / 16) as nat, upper), hex_digit((b % 16) as nat, upper)]
}

/// The ASCII hexadecimal digit for a number below sixteen.
pub open spec fn hex_digit(d: nat, upper: bool) -> u8
    recommends
        d < 16,
{
    if d < 10 {
        (0x30 + d) as u8
    } else if upper {
        (0x41 + d - 10) as u8
    } else {
        (0x61 + d - 10) as u8
    }
}

/// The hexadecimal digits of a run of bytes, two for each byte.
pub open spec fn hex(bytes: Seq<u8>, upper: bool) -> Seq<u8>
    decreases bytes.len(),
{
    if bytes.len() == 0 {
        Seq::empty()
    } else {
        hex(bytes.drop_last(), upper) + hex_of_byte(bytes.last(), upper)
    }
}

/// The hexadecimal digits of `bytes`, two for each byte.
pub fn to_hex(bytes: &[u8], upper: bool) -> (digits: Vec<u8>)
    ensures
        digits@ == hex(bytes@, upper),
        digits@.len() == 2 * bytes@.len(),
{
    let letters: u8 = if upper { 0x41 } else { 0x61 };
    let mut digits: Vec<u8> = Vec::new();
    let count: usize = bytes.len();
    let mut i: usize = 0;
    while i < count
        invariant
            count == bytes@.len(),
            i <= count,
            letters == (if upper { 0x41u8 } else { 0x61u8 }),
            digits@ == hex(bytes@.subrange(0, i as int), upper),
            digits@.len() == 2 * i,
        decreases count - i,
    {
        let b: u8 = bytes[i];
        let high: u8 = b / 16;
        let low: u8 = b % 16;
        let ghost before = digits@;
        digits.push(if high < 10 { 0x30 + high } else { letters + (high - 10) });
        digits.push(if low < 10 { 0x30 + low } else { letters + (low - 10) });
        proof {
            assert(bytes@.subrange(0, i + 1).drop_last() =~= bytes@.subrange(0, i as int));
            assert(digits@ =~= before + hex_of_byte(b, upper));
        }
        i += 1;
    }
    assert(bytes@.subrange(0, count as int) =~= bytes@);
    digits
}

/// The number that `s` writes out in decimal, where it writes out one below
/// 2^32.
pub fn from_decimal(s: &[u8]) -> (r: Option<u32>)
    ensures
        r == parse_decimal(s@),
{
    let count: usize = s.len();
    if count == 0 {
        return None;
    }
    if count > 1 && s[0] == 0x30 {
        return None;
    }
    let mut value: u64 = 0;
    let mut i: usize = 0;
    while i < count
        invariant
            count == s@.len(),
            i <= count,
            forall|j: int| 0 <= j < i ==> is_digit(#[trigger] s@[j]),
            value == decimal_value(s@.subrange(0, i as int)),
            value <= u32::MAX,
        decreases count - i,
    {
        let b: u8 = s[i];
        if b < 0x30 || b > 0x39 {
            return None;
        }
        let next: u64 = value * 10 + (b - 0x30) as u64;
        proof {
            let upto = s@.subrange(0, i + 1);
            assert(upto.drop_last() =~= s@.subrange(0, i as int));
            assert(upto.last() == b);
            assert(next == decimal_value(upto));
        }
        if next > 0xffff_ffff {
            proof {
                lemma_decimal_value_grows(s@, i + 1);
            }
            return None;
        }
        value = next;
        i += 1;
    }
    assert(s@.subrange(0, count as int) =~= s@);
    Some(value as u32)
}

/// The number that digits spell is at least the number that any of their
/// prefixes spells.
pub proof fn lemma_decimal_value_grows(s: Seq<u8>, upto: int)
    requires
        0 <= upto <= s.len(),
    ensures
        decimal_value(s.subrange(0, upto)) <= decimal_value(s),
    decreases s.len() - upto,
{
    if upto < s.len() {
        lemma_decimal_value_grows(s, upto + 1);
        let longer = s.subrange(0, upto + 1);
        assert(longer.drop_last() =~= s.subrange(0, upto));
    } else {
        assert(s.subrange(0, upto) =~= s);
    }
}

} // verus!
