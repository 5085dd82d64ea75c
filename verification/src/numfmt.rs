//! Decimal rendering of sensor values: unsigned and signed integers, and
//! ten-thousandths fixed-point values with exactly four fractional digits.
//! Every renderer appends ASCII bytes to a byte vector and is specified
//! against a mathematical definition of the decimal form.

use vstd::prelude::*;

verus! {

/// The ASCII byte of the decimal digit `d`.
pub open spec fn digit_byte(d: int) -> u8 {
    (48 + d) as u8
}

/// The ASCII decimal digits of `n`, most significant first, no sign and no
/// leading zeroes (a single zero for zero itself).
pub open spec fn spec_udec(n: nat) -> Seq<u8>
    decreases n,
{
    if n < 10 {
        seq![digit_byte(n as int)]
    } else {
        spec_udec(n / 10).push(digit_byte((n % 10) as int))
    }
}

/// The ASCII decimal form of `v`: a minus sign before the digits of its
/// magnitude when negative.
pub open spec fn spec_idec(v: int) -> Seq<u8> {
    if v < 0 {
        seq![45u8] + spec_udec((-v) as nat)
    } else {
        spec_udec(v as nat)
    }
}

/// The four zero-padded fractional digits of `f`, which lies below ten
/// thousand.
pub open spec fn spec_frac4(f: int) -> Seq<u8> {
    seq![
        digit_byte(f / 1000 % 10),
        digit_byte(f / 100 % 10),
        digit_byte(f / 10 % 10),
        digit_byte(f % 10),
    ]
}

/// The rendered form of the ten-thousandths fixed-point value `v`: optional
/// minus sign, integer part, a point, then exactly four fractional digits.
pub open spec fn spec_fix4(v: int) -> Seq<u8> {
    let m = if v < 0 {
        -v
    } else {
        v
    };
    let sign: Seq<u8> = if v < 0 {
        seq![45u8]
    } else {
        Seq::empty()
    };
    sign + spec_udec((m / 10000) as nat) + seq![46u8] + spec_frac4(m % 10000)
}

/// Append the decimal digits of `n`.
pub fn push_udec(buf: &mut Vec<u8>, n: u32)
    ensures
        final(buf)@ == old(buf)@ + spec_udec(n as nat),
    decreases n,
{
    if n < 10 {
        buf.push(48 + n as u8);
        proof {
            assert(buf@ =~= old(buf)@ + spec_udec(n as nat));
        }
    } else {
        push_udec(buf, n / 10);
        buf.push(48 + (n % 10) as u8);
        proof {
            assert(buf@ =~= old(buf)@ + spec_udec(n as nat));
        }
    }
}

/// Append the decimal form of `v`, minus sign first when negative.
pub fn push_idec(buf: &mut Vec<u8>, v: i32)
    ensures
        final(buf)@ == old(buf)@ + spec_idec(v as int),
{
    if v < 0 {
        buf.push(45);
        let m: u32 = (-(v as i64)) as u32;
        push_udec(buf, m);
        proof {
            assert(buf@ =~= old(buf)@ + spec_idec(v as int));
        }
    } else {
        push_udec(buf, v as u32);
    }
}

/// Append the fixed-point rendering of `v` ten-thousandths.
pub fn push_fix4(buf: &mut Vec<u8>, v: i32)
    ensures
        final(buf)@ == old(buf)@ + spec_fix4(v as int),
{
    let m64: i64 = if v < 0 {
        -(v as i64)
    } else {
        v as i64
    };
    let m: u32 = m64 as u32;
    if v < 0 {
        buf.push(45);
    }
    push_udec(buf, m / 10000);
    buf.push(46);
    let f: u32 = m % 10000;
    buf.push(48 + (f / 1000 % 10) as u8);
    buf.push(48 + (f / 100 % 10) as u8);
    buf.push(48 + (f / 10 % 10) as u8);
    buf.push(48 + (f % 10) as u8);
    proof {
        assert(buf@ =~= old(buf)@ + spec_fix4(v as int));
    }
}

/// Ten to the `k`.
pub open spec fn pow10(k: nat) -> nat
    decreases k,
{
    if k == 0 {
        1
    } else {
        10 * pow10((k - 1) as nat)
    }
}

proof fn lemma_pow10_pos(k: nat)
    ensures
        pow10(k) >= 1,
    decreases k,
{
    if k > 0 {
        lemma_pow10_pos((k - 1) as nat);
    }
}

/// A value below ten to the `k` renders in at most `k` digits.
pub proof fn lemma_udec_len(n: nat, k: nat)
    requires
        k >= 1,
        n < pow10(k),
    ensures
        spec_udec(n).len() <= k,
    decreases k,
{
    if n < 10 {
    } else {
        assert(pow10(k) == 10 * pow10((k - 1) as nat));
        if k == 1 {
            assert(false);
        } else {
            let p = pow10((k - 1) as nat);
            lemma_pow10_pos((k - 1) as nat);
            assert(n / 10 < p) by (nonlinear_arith)
                requires
                    n < 10 * p,
                    p >= 1,
            ;
            lemma_udec_len(n / 10, (k - 1) as nat);
        }
    }
}

/// The magnitude of any 32-bit signed value renders in at most ten digits.
pub proof fn lemma_udec_len_i32(n: nat)
    requires
        n <= 2147483648,
    ensures
        spec_udec(n).len() <= 10,
{
    reveal_with_fuel(pow10, 11);
    lemma_udec_len(n, 10);
}

/// The signed decimal form of a 32-bit value takes at most eleven bytes.
pub proof fn lemma_idec_len(v: int)
    requires
        -2147483648 <= v <= 2147483647,
    ensures
        spec_idec(v).len() <= 11,
{
    if v < 0 {
        lemma_udec_len_i32((-v) as nat);
    } else {
        lemma_udec_len_i32(v as nat);
    }
}

/// The fixed-point form of a 32-bit ten-thousandths value takes at most
/// twelve bytes: sign, six integer digits, the point, four fraction digits.
pub proof fn lemma_fix4_len(v: int)
    requires
        -2147483648 <= v <= 2147483647,
    ensures
        spec_fix4(v).len() <= 12,
{
    let m = if v < 0 {
        -v
    } else {
        v
    };
    assert(m / 10000 < 1000000) by (nonlinear_arith)
        requires
            0 <= m <= 2147483648,
    ;
    reveal_with_fuel(pow10, 7);
    lemma_udec_len((m / 10000) as nat, 6);
}

/// A 16-bit value renders in at most five digits.
pub proof fn lemma_udec_len_u16(n: nat)
    requires
        n <= 65535,
    ensures
        spec_udec(n).len() <= 5,
{
    reveal_with_fuel(pow10, 6);
    lemma_udec_len(n, 5);
}

} // verus!
