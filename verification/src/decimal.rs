//! Decimal text of integers, the form in which arguments cross into the engine.
use crate::utils::string_from_utf8;
use vstd::prelude::*;
use vstd::utf8::encode_utf8;
use vstd::utf8::encode_utf8_decode_utf8;
use vstd::utf8::encode_utf8_valid_utf8;
use vstd::utf8::is_ascii_chars;
use vstd::utf8::is_ascii_chars_encode_utf8;

verus! {

/// The character of the decimal digit `d`.
pub open spec fn digit_char(d: int) -> char
    recommends
        0 <= d <= 9,
{
    (48 + d) as char
}

/// The decimal text of `n`: its digits, most significant first, without leading
/// zeros; "0" for zero.
pub open spec fn decimal_nat(n: nat) -> Seq<char>
    decreases n,
{
    if n < 10 {
        seq![digit_char(n as int)]
    } else {
        decimal_nat(n / 10).push(digit_char((n % 10) as int))
    }
}

/// The decimal text of `n`: a minus sign for a negative number, then the decimal
/// text of its magnitude.
pub open spec fn decimal_int(n: int) -> Seq<char> {
    if n < 0 {
        seq!['-'] + decimal_nat((-n) as nat)
    } else {
        decimal_nat(n as nat)
    }
}

/// The number that a text of decimal digits denotes.
pub open spec fn decimal_value(text: Seq<char>) -> int
    decreases text.len(),
{
    if text.len() == 0 {
        0
    } else {
        decimal_value(text.drop_last()) * 10 + (text.last() as int - 48)
    }
}

/// The number that a decimal text with an optional minus sign denotes.
pub open spec fn signed_decimal_value(text: Seq<char>) -> int {
    if text.len() > 0 && text[0] == '-' {
        -decimal_value(text.drop_first())
    } else {
        decimal_value(text)
    }
}

/// The decimal text of a number is made of digits only, and has at least one.
pub proof fn lemma_decimal_nat_digits(n: nat)
    ensures
        decimal_nat(n).len() >= 1,
        forall|i: int|
            0 <= i < decimal_nat(n).len() ==> '0' <= #[trigger] decimal_nat(n)[i] <= '9',
    decreases n,
{
    if n >= 10 {
        lemma_decimal_nat_digits(n / 10);
    }
}

/// Reading the decimal text of a number gives the number back.
pub proof fn lemma_decimal_nat_round_trip(n: nat)
    ensures
        decimal_value(decimal_nat(n)) == n,
    decreases n,
{
    let text = decimal_nat(n);
    if n < 10 {
        assert(text.drop_last() =~= Seq::<char>::empty());
        assert(decimal_value(Seq::<char>::empty()) == 0);
        assert(text.last() as int - 48 == n);
    } else {
        lemma_decimal_nat_round_trip(n / 10);
        assert(text.drop_last() =~= decimal_nat(n / 10));
        assert(text.last() as int - 48 == n % 10);
    }
}

/// Reading the decimal text of an integer gives the integer back.
pub proof fn lemma_decimal_int_round_trip(n: int)
    ensures
        signed_decimal_value(decimal_int(n)) == n,
{
    if n < 0 {
        let magnitude = (-n) as nat;
        lemma_decimal_nat_round_trip(magnitude);
        assert(decimal_int(n).drop_first() =~= decimal_nat(magnitude));
    } else {
        lemma_decimal_nat_round_trip(n as nat);
        lemma_decimal_nat_digits(n as nat);
    }
}

/// The digits of `n` that stand before its last one; none for a number below ten.
spec fn leading_digits(n: nat) -> Seq<char> {
    if n == 0 {
        Seq::<char>::empty()
    } else {
        decimal_nat(n)
    }
}

proof fn lemma_leading_digits(n: nat)
    ensures
        decimal_nat(n) == leading_digits(n / 10).push(digit_char((n % 10) as int)),
{
    if n < 10 {
        assert(seq![digit_char(n as int)] =~= Seq::<char>::empty().push(digit_char(n as int)));
    }
}

/// Text made of a minus sign, where `negative`, and the decimal digits of
/// `magnitude`.
fn signed_decimal(negative: bool, magnitude: u64) -> (text: String)
    ensures
        text@ == if negative {
            seq!['-'] + decimal_nat(magnitude as nat)
        } else {
            decimal_nat(magnitude as nat)
        },
{
    // The digits, least significant first.
    let mut reversed: Vec<u8> = Vec::new();
    let mut rest: u64 = magnitude;
    let ghost mut tail: Seq<char> = Seq::empty();
    reversed.push(48u8 + (rest % 10) as u8);
    proof {
        lemma_leading_digits(rest as nat);
        tail = seq![digit_char((rest % 10) as int)];
        assert(leading_digits((rest / 10) as nat).push(digit_char((rest % 10) as int))
            =~= leading_digits((rest / 10) as nat) + tail);
    }
    rest = rest / 10;
    while rest > 0
        invariant
            decimal_nat(magnitude as nat) == leading_digits(rest as nat) + tail,
            reversed@.len() == tail.len(),
            tail.len() >= 1,
            forall|j: int|
                0 <= j < tail.len() ==> reversed@[j] == #[trigger] tail[tail.len() - 1 - j] as u8,
            forall|j: int| 0 <= j < tail.len() ==> '0' <= #[trigger] tail[j] <= '9',
        decreases rest,
    {
        let ghost old_tail = tail;
        reversed.push(48u8 + (rest % 10) as u8);
        proof {
            lemma_leading_digits(rest as nat);
            tail = seq![digit_char((rest % 10) as int)] + old_tail;
            assert(leading_digits(rest as nat) + old_tail =~= leading_digits((rest / 10) as nat)
                + tail);
            assert forall|j: int| 0 <= j < tail.len() implies reversed@[j]
                == #[trigger] tail[tail.len() - 1 - j] as u8 by {
                if j < old_tail.len() {
                    assert(tail[tail.len() - 1 - j] == old_tail[old_tail.len() - 1 - j]);
                }
            }
        }
        rest = rest / 10;
    }
    let ghost digits = decimal_nat(magnitude as nat);
    let ghost chars = if negative {
        seq!['-'] + digits
    } else {
        digits
    };
    assert(digits =~= tail);
    let mut bytes: Vec<u8> = Vec::new();
    if negative {
        bytes.push(45u8);
    }
    let sign: usize = bytes.len();
    let mut i: usize = reversed.len();
    while i > 0
        invariant
            i <= reversed@.len(),
            reversed@.len() == tail.len(),
            sign == chars.len() - tail.len(),
            bytes@.len() == sign + (reversed@.len() - i),
            chars == if negative {
                seq!['-'] + tail
            } else {
                tail
            },
            forall|j: int| 0 <= j < bytes@.len() ==> bytes@[j] == #[trigger] chars[j] as u8,
            forall|j: int|
                0 <= j < tail.len() ==> reversed@[j] == #[trigger] tail[tail.len() - 1 - j] as u8,
        decreases i,
    {
        i = i - 1;
        bytes.push(reversed[i]);
        proof {
            let k = bytes@.len() - 1;
            assert(chars[k] == tail[tail.len() - 1 - i]);
        }
    }
    proof {
        assert(is_ascii_chars(chars));
        is_ascii_chars_encode_utf8(chars);
        assert(encode_utf8(chars) =~= bytes@);
        encode_utf8_valid_utf8(chars);
        encode_utf8_decode_utf8(chars);
    }
    let text = string_from_utf8(bytes);
    text.unwrap()
}

/// The decimal text of `n`.
pub fn u64_to_decimal(n: u64) -> (text: String)
    ensures
        text@ == decimal_nat(n as nat),
{
    signed_decimal(false, n)
}

/// The decimal text of `n`.
pub fn i64_to_decimal(n: i64) -> (text: String)
    ensures
        text@ == decimal_int(n as int),
{
    if n < 0 {
        // The magnitude of the least value does not fit the signed type.
        let magnitude: u64 = (-(n + 1)) as u64 + 1;
        signed_decimal(true, magnitude)
    } else {
        signed_decimal(false, n as u64)
    }
}

} // verus!
