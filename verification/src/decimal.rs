//! Decimal notation of unsigned numbers, as bytes and as strings.

use vstd::prelude::*;
use vstd::string::StringExecFns;

verus! {

/// Whether `byte` is an ASCII decimal digit.
pub open spec fn is_digit(byte: u8) -> bool {
    0x30 <= byte <= 0x39
}

/// Whether every byte of `text` is a decimal digit.
pub open spec fn all_digits(text: Seq<u8>) -> bool {
    forall|i: int| 0 <= i < text.len() ==> is_digit(#[trigger] text[i])
}

/// The number that a run of decimal digits denotes, most significant digit
/// first. The empty run denotes zero.
pub open spec fn decimal_value(digits: Seq<u8>) -> nat
    decreases digits.len(),
{
    if digits.len() == 0 {
        0
    } else {
        decimal_value(digits.drop_last()) * 10 + (digits.last() - 0x30) as nat
    }
}

/// The decimal notation of `n`: no sign, no leading zero, `"0"` for zero.
pub open spec fn decimal_text(n: nat) -> Seq<u8>
    decreases n,
{
    if n < 10 {
        seq![(0x30 + n) as u8]
    } else {
        decimal_text(n / 10).push((0x30 + n % 10) as u8)
    }
}

/// The characters that the bytes of an ASCII text stand for.
pub open spec fn as_chars(text: Seq<u8>) -> Seq<char> {
    Seq::new(text.len(), |i: int| text[i] as char)
}

/// A prefix of a run of digits denotes no more than the whole run.
pub proof fn lemma_value_of_prefix(digits: Seq<u8>, k: int)
    requires
        all_digits(digits),
        0 <= k <= digits.len(),
    ensures
        decimal_value(digits.subrange(0, k)) <= decimal_value(digits),
    decreases digits.len(),
{
    if k == digits.len() {
        assert(digits.subrange(0, k) =~= digits);
    } else {
        let shorter = digits.drop_last();
        assert(shorter.subrange(0, k) =~= digits.subrange(0, k));
        lemma_value_of_prefix(shorter, k);
    }
}

/// The decimal notation of a number is a non-empty run of digits that
/// denotes that number, and starts with a zero only if it is `"0"`.
pub proof fn lemma_text_denotes(n: nat)
    ensures
        decimal_text(n).len() >= 1,
        all_digits(decimal_text(n)),
        decimal_value(decimal_text(n)) == n,
        decimal_text(n)[0] == 0x30 ==> n == 0,
    decreases n,
{
    if n < 10 {
        let text = decimal_text(n);
        assert(text.drop_last().len() == 0);
        assert(decimal_value(text.drop_last()) == 0);
    } else {
        lemma_text_denotes(n / 10);
        let text = decimal_text(n);
        assert(text.drop_last() =~= decimal_text(n / 10));
    }
}

/// Writes `n` in decimal notation.
pub fn to_decimal(n: u32) -> (text: Vec<u8>)
    ensures
        text@ == decimal_text(n as nat),
{
    let mut low: Vec<u8> = Vec::new();
    let mut rest: u32 = n;
    while rest >= 10
        invariant
            decimal_text(n as nat) == decimal_text(rest as nat) + low@.reverse(),
        decreases rest,
    {
        let digit: u8 = 0x30 + (rest % 10) as u8;
        proof {
            assert(low@.push(digit).reverse() =~= seq![digit] + low@.reverse());
            assert(decimal_text(rest as nat) == decimal_text(rest as nat / 10).push(digit));
            assert(decimal_text(rest as nat / 10).push(digit) + low@.reverse() =~= decimal_text(
                rest as nat / 10,
            ) + (seq![digit] + low@.reverse()));
        }
        low.push(digit);
        rest = rest / 10;
    }
    let digit: u8 = 0x30 + rest as u8;
    proof {
        assert(low@.push(digit).reverse() =~= seq![digit] + low@.reverse());
    }
    low.push(digit);
    let mut text: Vec<u8> = Vec::new();
    let mut left: usize = low.len();
    while left > 0
        invariant
            left <= low.len(),
            text@ == low@.reverse().subrange(0, low.len() - left),
        decreases left,
    {
        left -= 1;
        text.push(low[left]);
        assert(text@ =~= low@.reverse().subrange(0, low.len() - left));
    }
    assert(text@ =~= low@.reverse());
    text
}

fn digit_str(byte: u8) -> (text: &'static str)
    requires
        is_digit(byte),
    ensures
        text@ == seq![byte as char],
{
    proof {
        reveal_strlit("0");
        reveal_strlit("1");
        reveal_strlit("2");
        reveal_strlit("3");
        reveal_strlit("4");
        reveal_strlit("5");
        reveal_strlit("6");
        reveal_strlit("7");
        reveal_strlit("8");
        reveal_strlit("9");
    }
    let text = match byte {
        0x30 => "0",
        0x31 => "1",
        0x32 => "2",
        0x33 => "3",
        0x34 => "4",
        0x35 => "5",
        0x36 => "6",
        0x37 => "7",
        0x38 => "8",
        _ => "9",
    };
    assert(text@ =~= seq![byte as char]);
    text
}

/// Writes `n` in decimal notation, as a string.
pub fn to_decimal_string(n: u32) -> (text: String)
    ensures
        text@ == as_chars(decimal_text(n as nat)),
{
    let digits = to_decimal(n);
    proof {
        lemma_text_denotes(n as nat);
    }
    let mut text = String::new();
    let mut at: usize = 0;
    while at < digits.len()
        invariant
            at <= digits.len(),
            all_digits(digits@),
            text@ == as_chars(digits@.subrange(0, at as int)),
        decreases digits.len() - at,
    {
        let digit = digit_str(digits[at]);
        text.append(digit);
        at += 1;
        assert(text@ =~= as_chars(digits@.subrange(0, at as int)));
    }
    assert(digits@.subrange(0, at as int) =~= digits@);
    text
}

} // verus!
