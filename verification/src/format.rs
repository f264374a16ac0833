//! Fixed two-decimal text for sensor samples.
//!
//! A sample prints as an optional minus sign, the decimal digits of its
//! integer part (a single `0` when the integer part is zero), a dot, and
//! exactly two fraction digits. The magnitude was already truncated toward
//! zero when the sample was taken, so `1.999` prints as `1.99` and `-0.07`
//! keeps its sign even though its integer part is zero.

use vstd::arithmetic::div_mod::lemma_multiply_divide_lt;
use vstd::prelude::*;

use crate::fixed::Fixed;

verus! {

/// The decimal digits of `n`, most significant first, as ASCII bytes.
/// Zero prints as a single `0`; no other value has a leading zero.
pub open spec fn dec_digits(n: nat) -> Seq<u8>
    decreases n,
{
    if n < 10 {
        seq![(48 + n) as u8]
    } else {
        dec_digits(n / 10).push((48 + n % 10) as u8)
    }
}

/// The full text of a sample: sign, integer digits, dot, two fraction digits.
pub open spec fn formatted(v: Fixed) -> Seq<u8> {
    let sign: Seq<u8> = if v.neg {
        seq![45u8]
    } else {
        Seq::empty()
    };
    sign + dec_digits((v.centi / 100) as nat) + seq![
        46u8,
        (48 + (v.centi / 10) % 10) as u8,
        (48 + v.centi % 10) as u8,
    ]
}

/// Appends the decimal digits of `n` to `out`.
fn push_digits(out: &mut Vec<u8>, n: u32)
    ensures
        final(out)@ == old(out)@ + dec_digits(n as nat),
    decreases n,
{
    if n < 10 {
        out.push(48 + n as u8);
        proof {
            assert(out@ =~= old(out)@ + dec_digits(n as nat));
        }
    } else {
        push_digits(out, n / 10);
        out.push(48 + (n % 10) as u8);
        proof {
            assert(out@ =~= old(out)@ + dec_digits(n as nat));
        }
    }
}

/// Renders one sample as its fixed two-decimal text.
pub fn format_value(v: Fixed) -> (text: Vec<u8>)
    ensures
        text@ == formatted(v),
{
    let mut text: Vec<u8> = Vec::new();
    if v.neg {
        text.push(45);
    }
    push_digits(&mut text, v.centi / 100);
    text.push(46);
    text.push(48 + ((v.centi / 10) % 10) as u8);
    text.push(48 + (v.centi % 10) as u8);
    proof {
        assert(text@ =~= formatted(v));
    }
    text
}

/// Powers of ten, for bounding digit counts.
pub open spec fn pow10(k: nat) -> nat
    decreases k,
{
    if k == 0 {
        1
    } else {
        10 * pow10((k - 1) as nat)
    }
}

/// A value below the `k`-th power of ten prints with at most `k` digits.
pub proof fn lemma_dec_digits_len(n: nat, k: nat)
    requires
        1 <= k,
        n < pow10(k),
    ensures
        1 <= dec_digits(n).len() <= k,
    decreases n,
{
    if n < 10 {
    } else {
        assert(k >= 2) by {
            if k == 1 {
                assert(pow10(1nat) == 10) by {
                    reveal_with_fuel(pow10, 3);
                }
            }
        }
        assert(n / 10 < pow10((k - 1) as nat)) by {
            lemma_multiply_divide_lt(n as int, 10, pow10((k - 1) as nat) as int);
        }
        lemma_dec_digits_len(n / 10, (k - 1) as nat);
    }
}

/// A formatted sample is 4 to 14 bytes long: an optional sign, one to ten
/// integer digits, the dot, and two fraction digits.
pub proof fn lemma_formatted_len(v: Fixed)
    ensures
        4 <= formatted(v).len() <= 14,
{
    reveal_with_fuel(pow10, 11);
    assert(pow10(10) == 10_000_000_000);
    lemma_dec_digits_len((v.centi / 100) as nat, 10);
}

/// Every byte of `dec_digits(n)` is an ASCII decimal digit.
pub proof fn lemma_dec_digits_are_digits(n: nat)
    ensures
        forall|i: int|
            0 <= i < dec_digits(n).len() ==> 48 <= #[trigger] dec_digits(n)[i] <= 57,
    decreases n,
{
    let s = dec_digits(n);
    if n < 10 {
        assert(s[0] == (48 + n) as u8);
    } else {
        lemma_dec_digits_are_digits(n / 10);
        let prior = dec_digits(n / 10);
        assert forall|i: int| 0 <= i < s.len() implies 48 <= #[trigger] s[i] <= 57 by {
            if i < prior.len() {
                assert(s[i] == prior[i]);
            } else {
                assert(s[i] == (48 + n % 10) as u8);
            }
        }
    }
}

/// The number a string of ASCII decimal digits denotes.
pub open spec fn digits_value(s: Seq<u8>) -> int
    decreases s.len(),
{
    if s.len() == 0 {
        0
    } else {
        digits_value(s.drop_last()) * 10 + s.last() - 48
    }
}

/// Whether a formatted sample reads back as negative.
pub open spec fn parsed_neg(s: Seq<u8>) -> bool {
    s.len() > 0 && s[0] == 45u8
}

/// The hundredths a formatted sample reads back to: the digits before the
/// dot times one hundred, plus the two digits after it.
pub open spec fn parsed_centi(s: Seq<u8>) -> int {
    let body = if parsed_neg(s) {
        s.drop_first()
    } else {
        s
    };
    digits_value(body.take(body.len() - 3)) * 100 + digits_value(body.skip(body.len() - 2))
}

/// Reading the digits of `n` back yields `n`.
proof fn lemma_digits_value_of_dec(n: nat)
    ensures
        digits_value(dec_digits(n)) == n,
    decreases n,
{
    reveal_with_fuel(digits_value, 3);
    let s = dec_digits(n);
    if n < 10 {
        assert(s.drop_last() =~= Seq::<u8>::empty());
        assert(s.last() == (48 + n) as u8);
        assert(digits_value(s) == 0 * 10 + (48 + n) - 48);
    } else {
        lemma_digits_value_of_dec(n / 10);
        assert(s.drop_last() =~= dec_digits(n / 10));
        assert(s.last() == (48 + n % 10) as u8);
        assert(0 <= n % 10 < 10);
        assert((48 + n % 10) as u8 == 48 + n % 10);
        assert(digits_value(s) == (n / 10) * 10 + n % 10);
        assert((n / 10) * 10 + n % 10 == n) by {
            vstd::arithmetic::div_mod::lemma_fundamental_div_mod(n as int, 10);
        }
    }
}

/// The value of a two-digit string.
proof fn lemma_digits_value_pair(t: u8, u: u8)
    ensures
        digits_value(seq![t, u]) == (t - 48) * 10 + u - 48,
{
    reveal_with_fuel(digits_value, 4);
    let s = seq![t, u];
    assert(s.drop_last() =~= seq![t]);
    assert(s.last() == u);
    assert(seq![t].drop_last() =~= Seq::<u8>::empty());
    assert(seq![t].last() == t);
    assert(digits_value(seq![t]) == t - 48);
}

/// Formatting loses nothing: a formatted sample parses back to exactly the
/// sign and the hundredths it was printed from. Together with the fact that
/// the sample itself is the measurement truncated to hundredths, the text a
/// frame shows is always within one hundredth of the measured value.
pub proof fn lemma_format_round_trip(v: Fixed)
    ensures
        parsed_neg(formatted(v)) == v.neg,
        parsed_centi(formatted(v)) == v.centi as int,
{
    let ip = (v.centi / 100) as nat;
    let digits = dec_digits(ip);
    let tail = seq![46u8, (48 + (v.centi / 10) % 10) as u8, (48 + v.centi % 10) as u8];
    lemma_dec_digits_are_digits(ip);
    lemma_digits_value_of_dec(ip);
    let s = formatted(v);
    let body = if v.neg {
        s.drop_first()
    } else {
        s
    };
    assert(body =~= digits + tail);
    assert(parsed_neg(s) == v.neg);
    assert(body.take(body.len() - 3) =~= digits);
    let frac = body.skip(body.len() - 2);
    let td = (48 + (v.centi / 10) % 10) as u8;
    let ud = (48 + v.centi % 10) as u8;
    assert(frac =~= seq![td, ud]);
    lemma_digits_value_pair(td, ud);
    assert(0 <= (v.centi / 10) % 10 < 10 && 0 <= v.centi % 10 < 10);
    assert(digits_value(frac) == ((v.centi / 10) % 10) * 10 + v.centi % 10);
    assert((v.centi / 100) * 100 + ((v.centi / 10) % 10) * 10 + v.centi % 10 == v.centi) by {
        let c = v.centi as int;
        assert(c / 10 == (c / 10 / 10) * 10 + (c / 10) % 10);
        assert(c == (c / 10) * 10 + c % 10);
        assert(c / 10 / 10 == c / 100) by {
            vstd::arithmetic::div_mod::lemma_div_denominator(c, 10, 10);
        }
    }
}

} // verus!
