//! Encoding helpers: standard base64 and decimal rendering of identifiers.

use base64::Engine;
use vstd::prelude::*;

verus! {

/// The padded, standard-alphabet base64 encoding of a byte sequence.
pub uninterp spec fn b64_of(bytes: Seq<u8>) -> Seq<char>;

/// Encode bytes as padded standard base64.
///
/// Relies on `base64::engine::general_purpose::STANDARD` through
/// `base64::Engine::encode`: a deterministic encode of the input bytes alone;
/// four output characters for every three input bytes, rounded up by padding.
#[verifier::external_body]
pub fn to_base64(bytes: &[u8]) -> (r: String)
    ensures
        r@ == b64_of(bytes@),
        r@.len() == 4 * ((bytes@.len() + 2) / 3),
{
    base64::engine::general_purpose::STANDARD.encode(bytes)
}

/// The character for one decimal digit.
pub open spec fn digit_char(d: int) -> char {
    ((48 + d) as u8) as char
}

/// The decimal digits of `n`, most significant first, no leading zeros.
pub open spec fn decimal_digits(n: nat) -> Seq<char>
    decreases n,
{
    if n < 10 {
        seq![digit_char(n as int)]
    } else {
        decimal_digits(n / 10).push(digit_char((n % 10) as int))
    }
}

/// The ASCII bytes of the decimal digits of `n`.
pub open spec fn decimal_ascii(n: nat) -> Seq<u8>
    decreases n,
{
    if n < 10 {
        seq![(48 + n) as u8]
    } else {
        decimal_ascii(n / 10).push((48 + n % 10) as u8)
    }
}

/// The one-character string for a decimal digit.
fn digit_str(d: u8) -> (r: &'static str)
    requires
        d < 10,
    ensures
        r@ == seq![digit_char(d as int)],
{
    proof {
        reveal_strlit("0");
        reveal_strlit("1");
        reveal_strlit("2");
        reveal_strlit("3");
        reveal_strlit("4");
        reveal_strlit("5");
        reveal_strlit("6");
        reveal_strlit("7");
        reveal_strlit("8");
        reveal_strlit("9");
    }
    match d {
        0 => "0",
        1 => "1",
        2 => "2",
        3 => "3",
        4 => "4",
        5 => "5",
        6 => "6",
        7 => "7",
        8 => "8",
        _ => "9",
    }
}

/// Append the decimal digits of `n` to `s`.
pub fn push_decimal(s: &mut String, n: u128)
    ensures
        final(s)@ == old(s)@ + decimal_digits(n as nat),
    decreases n,
{
    if n < 10 {
        s.append(digit_str(n as u8));
        proof {
            assert(final(s)@ =~= old(s)@ + decimal_digits(n as nat));
        }
    } else {
        let quotient = n / 10;
        let remainder = (n % 10) as u8;
        assert(quotient < n) by (nonlinear_arith)
            requires
                n >= 10,
                quotient == n / 10,
        ;
        push_decimal(s, quotient);
        s.append(digit_str(remainder));
        proof {
            assert(decimal_digits(n as nat) =~= decimal_digits((n / 10) as nat) + seq![
                digit_char((n % 10) as int),
            ]);
            assert(final(s)@ =~= old(s)@ + decimal_digits(n as nat));
        }
    }
}

/// The decimal rendering of `n`.
pub fn decimal_string(n: u128) -> (r: String)
    ensures
        r@ == decimal_digits(n as nat),
{
    let mut s = String::new();
    push_decimal(&mut s, n);
    proof {
        assert(Seq::<char>::empty() + decimal_digits(n as nat) =~= decimal_digits(n as nat));
    }
    s
}

/// Append the ASCII decimal digits of `n` to `v`.
pub fn push_decimal_ascii(v: &mut Vec<u8>, n: u128)
    ensures
        final(v)@ == old(v)@ + decimal_ascii(n as nat),
    decreases n,
{
    if n < 10 {
        v.push(48 + n as u8);
        proof {
            assert(final(v)@ =~= old(v)@ + decimal_ascii(n as nat));
        }
    } else {
        let quotient = n / 10;
        let remainder = (n % 10) as u8;
        assert(quotient < n) by (nonlinear_arith)
            requires
                n >= 10,
                quotient == n / 10,
        ;
        push_decimal_ascii(v, quotient);
        v.push(48 + remainder);
        proof {
            assert(decimal_ascii(n as nat) =~= decimal_ascii((n / 10) as nat) + seq![
                (48 + n % 10) as u8,
            ]);
            assert(final(v)@ =~= old(v)@ + decimal_ascii(n as nat));
        }
    }
}

/// Powers of ten.
pub open spec fn pow10(k: nat) -> nat
    decreases k,
{
    if k == 0 {
        1
    } else {
        10 * pow10((k - 1) as nat)
    }
}

pub proof fn lemma_pow10_pos(k: nat)
    ensures
        pow10(k) >= 1,
    decreases k,
{
    if k > 0 {
        lemma_pow10_pos((k - 1) as nat);
    }
}

/// `n` has at most `k` decimal digits when `n < pow10(k)`.
pub proof fn lemma_decimal_digits_len(n: nat, k: nat)
    requires
        1 <= k,
        n < pow10(k),
    ensures
        decimal_digits(n).len() <= k,
    decreases n,
{
    if n >= 10 {
        assert(pow10(0nat) == 1);
        assert(pow10(1nat) == 10);
        assert(k >= 2);
        lemma_pow10_pos((k - 1) as nat);
        assert(n / 10 < pow10((k - 1) as nat)) by (nonlinear_arith)
            requires
                n < 10 * pow10((k - 1) as nat),
                pow10((k - 1) as nat) >= 1,
        ;
        lemma_decimal_digits_len(n / 10, (k - 1) as nat);
    }
}

/// A `u128` value has at most 39 decimal digits.
pub proof fn lemma_decimal_digits_len_u128(n: u128)
    ensures
        decimal_digits(n as nat).len() <= 39,
{
    reveal_with_fuel(pow10, 41);
    assert((u128::MAX as nat) < pow10(39));
    lemma_decimal_digits_len(n as nat, 39);
}

pub proof fn lemma_decimal_ascii_len(n: nat)
    ensures
        decimal_ascii(n).len() >= 1,
        n >= 10 ==> decimal_ascii(n).len() >= 2,
    decreases n,
{
    if n >= 10 {
        lemma_decimal_ascii_len(n / 10);
    }
}

/// Distinct numbers have distinct decimal renderings.
pub proof fn lemma_decimal_ascii_injective(a: nat, b: nat)
    requires
        a != b,
    ensures
        decimal_ascii(a) != decimal_ascii(b),
    decreases a + b,
{
    lemma_decimal_ascii_len(a);
    lemma_decimal_ascii_len(b);
    if a < 10 && b < 10 {
        assert(decimal_ascii(a)[0] != decimal_ascii(b)[0]);
    } else if a < 10 || b < 10 {
        assert(decimal_ascii(a).len() != decimal_ascii(b).len());
    } else {
        if a % 10 != b % 10 {
            assert(decimal_ascii(a).last() != decimal_ascii(b).last());
        } else {
            assert(a / 10 != b / 10) by {
                assert(a == 10 * (a / 10) + a % 10) by (nonlinear_arith);
                assert(b == 10 * (b / 10) + b % 10) by (nonlinear_arith);
            }
            lemma_decimal_ascii_injective(a / 10, b / 10);
            assert(decimal_ascii(a).drop_last() =~= decimal_ascii(a / 10));
            assert(decimal_ascii(b).drop_last() =~= decimal_ascii(b / 10));
        }
    }
}

} // verus!
