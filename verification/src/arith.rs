//! Integer arithmetic of the virtual machine.
//!
//! An `int` of the machine is a 32-bit number in two's complement, a `long`
//! a 64-bit one. Sums, differences and products are taken in the integers
//! and then wrapped back into the width; quotients and remainders truncate
//! toward zero. A number that is stored into a narrower cell keeps its low
//! bits.

use vstd::arithmetic::div_mod::{
    lemma_add_mod_noop, lemma_div_is_ordered_by_denominator, lemma_fundamental_div_mod,
    lemma_mod_multiples_vanish, lemma_mul_mod_noop_general, lemma_small_mod,
};
use vstd::prelude::*;

verus! {

/// The 32-bit number that differs from `v` by a multiple of 2^32.
pub open spec fn wrap32(v: int) -> i32 {
    if v % 0x1_0000_0000 >= 0x8000_0000 {
        (v % 0x1_0000_0000 - 0x1_0000_0000) as i32
    } else {
        (v % 0x1_0000_0000) as i32
    }
}

/// The quotient of `a` by `b`, rounded toward zero.
pub open spec fn truncated_quotient(a: int, b: int) -> int
    recommends
        b != 0,
{
    if a >= 0 && b > 0 {
        a / b
    } else if a < 0 && b < 0 {
        (-a) / (-b)
    } else if a < 0 {
        -((-a) / b)
    } else {
        -(a / (-b))
    }
}

/// `iadd`: the sum, wrapped.
pub open spec fn iadd(a: i32, b: i32) -> i32 {
    wrap32(a + b)
}

/// `isub`: the difference, wrapped.
pub open spec fn isub(a: i32, b: i32) -> i32 {
    wrap32(a - b)
}

/// `imul`: the product, wrapped.
pub open spec fn imul(a: i32, b: i32) -> i32 {
    wrap32(a * b)
}

/// `ineg`: the negation, wrapped.
pub open spec fn ineg(a: i32) -> i32 {
    wrap32(-a)
}

/// `idiv`: the quotient rounded toward zero, wrapped.
pub open spec fn idiv(a: i32, b: i32) -> i32
    recommends
        b != 0,
{
    wrap32(truncated_quotient(a as int, b as int))
}

/// `irem`: what is left of `a` after taking out `b` as often as
/// [`truncated_quotient`] says. It has the sign of `a`.
pub open spec fn irem(a: i32, b: i32) -> i32
    recommends
        b != 0,
{
    wrap32(a - b * truncated_quotient(a as int, b as int))
}

/// Wrapping leaves a number that fits in 32 bits as it is.
pub proof fn lemma_wrap32_fits(v: int)
    requires
        -0x8000_0000 <= v < 0x8000_0000,
    ensures
        wrap32(v) == v,
{
    if v >= 0 {
        lemma_small_mod(v as nat, 0x1_0000_0000);
    } else {
        lemma_small_mod((v + 0x1_0000_0000) as nat, 0x1_0000_0000);
        lemma_mod_multiples_vanish(1, v, 0x1_0000_0000);
    }
}

/// A wrapped number differs from the number by a multiple of 2^32.
pub proof fn lemma_wrap32_congruent(v: int)
    ensures
        (wrap32(v) as int) % 0x1_0000_0000 == v % 0x1_0000_0000,
{
    let m = v % 0x1_0000_0000;
    lemma_fundamental_div_mod(v, 0x1_0000_0000);
    if m >= 0x8000_0000 {
        lemma_mod_multiples_vanish(-1, m, 0x1_0000_0000);
        lemma_small_mod(m as nat, 0x1_0000_0000);
    } else {
        lemma_small_mod(m as nat, 0x1_0000_0000);
    }
}

/// Numbers that differ by a multiple of 2^32 wrap to the same number.
pub proof fn lemma_wrap32_of_congruent(v: int, w: int)
    requires
        v % 0x1_0000_0000 == w % 0x1_0000_0000,
    ensures
        wrap32(v) == wrap32(w),
{
}

/// `iadd` does not depend on the order of its operands.
pub proof fn lemma_iadd_commutative(a: i32, b: i32)
    ensures
        iadd(a, b) == iadd(b, a),
{
}

/// `iadd` does not depend on how a sum of three is grouped.
pub proof fn lemma_iadd_associative(a: i32, b: i32, c: i32)
    ensures
        iadd(iadd(a, b), c) == iadd(a, iadd(b, c)),
{
    lemma_wrap32_congruent(a + b);
    lemma_wrap32_congruent(b + c);
    lemma_add_mod_noop(a + b, c as int, 0x1_0000_0000);
    lemma_add_mod_noop(iadd(a, b) as int, c as int, 0x1_0000_0000);
    lemma_add_mod_noop(a as int, b + c, 0x1_0000_0000);
    lemma_add_mod_noop(a as int, iadd(b, c) as int, 0x1_0000_0000);
    lemma_wrap32_of_congruent(iadd(a, b) + c, a + iadd(b, c));
}

/// `imul` does not depend on the order of its operands.
pub proof fn lemma_imul_commutative(a: i32, b: i32)
    ensures
        imul(a, b) == imul(b, a),
{
    assert(a * b == b * a) by (nonlinear_arith);
}

/// `imul` does not depend on how a product of three is grouped.
pub proof fn lemma_imul_associative(a: i32, b: i32, c: i32)
    ensures
        imul(imul(a, b), c) == imul(a, imul(b, c)),
{
    lemma_wrap32_congruent(a * b);
    lemma_wrap32_congruent(b * c);
    lemma_mul_mod_noop_general(a * b, c as int, 0x1_0000_0000);
    lemma_mul_mod_noop_general(imul(a, b) as int, c as int, 0x1_0000_0000);
    lemma_mul_mod_noop_general(a as int, b * c, 0x1_0000_0000);
    lemma_mul_mod_noop_general(a as int, imul(b, c) as int, 0x1_0000_0000);
    assert((a * b) * c == a * (b * c)) by (nonlinear_arith);
    lemma_wrap32_of_congruent(imul(a, b) * c, a * imul(b, c));
}

/// Negating twice gives the number back, the least number included.
pub proof fn lemma_ineg_involution(x: i32)
    ensures
        ineg(ineg(x)) == x,
{
    lemma_wrap32_congruent(-x);
    let y = ineg(x) as int;
    lemma_fundamental_div_mod(-x, 0x1_0000_0000);
    lemma_fundamental_div_mod(y, 0x1_0000_0000);
    let k = (-x) / 0x1_0000_0000 - y / 0x1_0000_0000;
    assert(-x == y + 0x1_0000_0000 * k);
    assert(x as int == -y - 0x1_0000_0000 * k);
    lemma_mod_multiples_vanish(-k, x as int, 0x1_0000_0000);
    assert(x + 0x1_0000_0000 * k == -y);
    assert(0x1_0000_0000 * (-k) == -(0x1_0000_0000 * k)) by (nonlinear_arith);
    lemma_wrap32_of_congruent(-y, x as int);
    lemma_wrap32_fits(x as int);
}

/// One more than the greatest number is the least.
pub proof fn lemma_iadd_wraps_at_max()
    ensures
        iadd(i32::MAX, 1) == i32::MIN,
{
    lemma_small_mod(0x8000_0000, 0x1_0000_0000);
}

/// `iadd`.
pub fn int_add(a: i32, b: i32) -> (r: i32)
    ensures
        r == iadd(a, b),
{
    proof {
        let s = a + b;
        if s > i32::MAX {
            lemma_wrap32_fits(s - 0x1_0000_0000);
            lemma_mod_multiples_vanish(-1, s, 0x1_0000_0000);
        } else if s < i32::MIN {
            lemma_wrap32_fits(s + 0x1_0000_0000);
            lemma_mod_multiples_vanish(1, s, 0x1_0000_0000);
        } else {
            lemma_wrap32_fits(s);
        }
    }
    a.wrapping_add(b)
}

/// `isub`.
pub fn int_sub(a: i32, b: i32) -> (r: i32)
    ensures
        r == isub(a, b),
{
    proof {
        let s = a - b;
        if s > i32::MAX {
            lemma_wrap32_fits(s - 0x1_0000_0000);
            lemma_mod_multiples_vanish(-1, s, 0x1_0000_0000);
        } else if s < i32::MIN {
            lemma_wrap32_fits(s + 0x1_0000_0000);
            lemma_mod_multiples_vanish(1, s, 0x1_0000_0000);
        } else {
            lemma_wrap32_fits(s);
        }
    }
    a.wrapping_sub(b)
}

/// `imul`.
pub fn int_mul(a: i32, b: i32) -> (r: i32)
    ensures
        r == imul(a, b),
{
    a.wrapping_mul(b)
}

/// `ineg`.
pub fn int_neg(a: i32) -> (r: i32)
    ensures
        r == ineg(a),
{
    int_sub(0, a)
}

/// `idiv`; `None` for a zero divisor.
pub fn int_div(a: i32, b: i32) -> (r: Option<i32>)
    ensures
        r is None <==> b == 0,
        r matches Some(q) ==> q == idiv(a, b),
{
    if b == 0 {
        None
    } else if a == i32::MIN && b == -1 {
        proof {
            lemma_small_mod(0x8000_0000, 0x1_0000_0000);
            assert(truncated_quotient(a as int, b as int) == 0x8000_0000int);
        }
        Some(i32::MIN)
    } else {
        let q = a.checked_div(b);
        proof {
            let t = truncated_quotient(a as int, b as int);
            lemma_quotient_bounds(a as int, b as int);
            if a < 0 && b < -1 {
                lemma_div_is_ordered_by_denominator(-a, 2, -b);
            }
            if a == 0 {
                lemma_zero_quotient(b as int);
            }
            lemma_wrap32_fits(t);
            assert(q == Some(t as i32));
        }
        q
    }
}

/// `irem`; `None` for a zero divisor.
pub fn int_rem(a: i32, b: i32) -> (r: Option<i32>)
    ensures
        r is None <==> b == 0,
        r matches Some(m) ==> m == irem(a, b),
{
    if b == 0 {
        None
    } else if a == i32::MIN && b == -1 {
        proof {
            lemma_small_mod(0, 0x1_0000_0000);
            assert(truncated_quotient(a as int, b as int) == 0x8000_0000int);
            assert(a - b * truncated_quotient(a as int, b as int) == 0);
        }
        Some(0)
    } else {
        let m = a.checked_rem(b);
        proof {
            lemma_quotient_bounds(a as int, b as int);
            lemma_remainder(a as int, b as int);
            if a == 0 {
                lemma_zero_quotient(b as int);
            }
            lemma_wrap32_fits(a - b * truncated_quotient(a as int, b as int));
            assert(m == Some((a - b * truncated_quotient(a as int, b as int)) as i32));
        }
        m
    }
}

/// Zero divided by anything is zero, with nothing left.
pub proof fn lemma_zero_quotient(b: int)
    requires
        b != 0,
    ensures
        truncated_quotient(0, b) == 0,
        0 - b * truncated_quotient(0, b) == 0,
{
    if b > 0 {
        assert(0int / b == 0) by (nonlinear_arith)
            requires
                b > 0,
        ;
    } else {
        assert(0int / (-b) == 0) by (nonlinear_arith)
            requires
                b < 0,
        ;
    }
}

/// The truncated quotient is no larger in size than the dividend.
pub proof fn lemma_quotient_bounds(a: int, b: int)
    requires
        b != 0,
    ensures
        a >= 0 ==> -a <= truncated_quotient(a, b) <= a,
        a < 0 ==> a <= truncated_quotient(a, b) <= -a,
{
    if a >= 0 && b > 0 {
        assert(0 <= a / b <= a) by (nonlinear_arith)
            requires
                a >= 0,
                b > 0,
        ;
    } else if a < 0 && b < 0 {
        assert(0 <= (-a) / (-b) <= -a) by (nonlinear_arith)
            requires
                a < 0,
                b < 0,
        ;
    } else if a < 0 {
        assert(0 <= (-a) / b <= -a) by (nonlinear_arith)
            requires
                a < 0,
                b > 0,
        ;
    } else {
        assert(0 <= a / (-b) <= a) by (nonlinear_arith)
            requires
                a >= 0,
                b < 0,
        ;
    }
}

/// What is left after the truncated quotient is the remainder of the sizes,
/// with the sign of the dividend; it is smaller in size than the divisor.
pub proof fn lemma_remainder(a: int, b: int)
    requires
        b != 0,
    ensures
        a >= 0 && b > 0 ==> a - b * truncated_quotient(a, b) == a % b,
        a < 0 && b < 0 ==> a - b * truncated_quotient(a, b) == -((-a) % (-b)),
        a < 0 && b > 0 ==> a - b * truncated_quotient(a, b) == -((-a) % b),
        a >= 0 && b < 0 ==> a - b * truncated_quotient(a, b) == a % (-b),
        a >= 0 ==> 0 <= a - b * truncated_quotient(a, b) <= a,
        a < 0 ==> a <= a - b * truncated_quotient(a, b) <= 0,
{
    if a >= 0 && b > 0 {
        lemma_fundamental_div_mod(a, b);
        assert(0 <= a % b <= a) by (nonlinear_arith)
            requires
                a >= 0,
                b > 0,
        ;
    } else if a < 0 && b < 0 {
        lemma_fundamental_div_mod(-a, -b);
        assert(b * ((-a) / (-b)) == -((-b) * ((-a) / (-b)))) by (nonlinear_arith);
        assert(0 <= (-a) % (-b) <= -a) by (nonlinear_arith)
            requires
                a < 0,
                b < 0,
        ;
    } else if a < 0 {
        lemma_fundamental_div_mod(-a, b);
        assert(b * (-((-a) / b)) == -(b * ((-a) / b))) by (nonlinear_arith);
        assert(0 <= (-a) % b <= -a) by (nonlinear_arith)
            requires
                a < 0,
                b > 0,
        ;
    } else {
        lemma_fundamental_div_mod(a, -b);
        assert(b * (-(a / (-b))) == (-b) * (a / (-b))) by (nonlinear_arith);
        assert(0 <= a % (-b) <= a) by (nonlinear_arith)
            requires
                a >= 0,
                b < 0,
        ;
    }
}

/// The 64-bit number that differs from `v` by a multiple of 2^64.
pub open spec fn wrap64(v: int) -> i64 {
    if v % 0x1_0000_0000_0000_0000 >= 0x8000_0000_0000_0000 {
        (v % 0x1_0000_0000_0000_0000 - 0x1_0000_0000_0000_0000) as i64
    } else {
        (v % 0x1_0000_0000_0000_0000) as i64
    }
}

/// `ladd`: the sum, wrapped.
pub open spec fn ladd(a: i64, b: i64) -> i64 {
    wrap64(a + b)
}

/// `lsub`: the difference, wrapped.
pub open spec fn lsub(a: i64, b: i64) -> i64 {
    wrap64(a - b)
}

/// `lmul`: the product, wrapped.
pub open spec fn lmul(a: i64, b: i64) -> i64 {
    wrap64(a * b)
}

/// `lneg`: the negation, wrapped.
pub open spec fn lneg(a: i64) -> i64 {
    wrap64(-a)
}

/// `ldiv`: the quotient rounded toward zero, wrapped.
pub open spec fn ldiv(a: i64, b: i64) -> i64
    recommends
        b != 0,
{
    wrap64(truncated_quotient(a as int, b as int))
}

/// `lrem`: what is left of `a` after taking out `b` as often as
/// [`truncated_quotient`] says. It has the sign of `a`.
pub open spec fn lrem(a: i64, b: i64) -> i64
    recommends
        b != 0,
{
    wrap64(a - b * truncated_quotient(a as int, b as int))
}

/// Wrapping leaves a number that fits in 64 bits as it is.
pub proof fn lemma_wrap64_fits(v: int)
    requires
        -0x8000_0000_0000_0000 <= v < 0x8000_0000_0000_0000,
    ensures
        wrap64(v) == v,
{
    if v >= 0 {
        lemma_small_mod(v as nat, 0x1_0000_0000_0000_0000);
    } else {
        lemma_small_mod((v + 0x1_0000_0000_0000_0000) as nat, 0x1_0000_0000_0000_0000);
        lemma_mod_multiples_vanish(1, v, 0x1_0000_0000_0000_0000);
    }
}

/// `ladd`.
pub fn long_add(a: i64, b: i64) -> (r: i64)
    ensures
        r == ladd(a, b),
{
    proof {
        let s = a + b;
        if s > i64::MAX {
            lemma_wrap64_fits(s - 0x1_0000_0000_0000_0000);
            lemma_mod_multiples_vanish(-1, s, 0x1_0000_0000_0000_0000);
        } else if s < i64::MIN {
            lemma_wrap64_fits(s + 0x1_0000_0000_0000_0000);
            lemma_mod_multiples_vanish(1, s, 0x1_0000_0000_0000_0000);
        } else {
            lemma_wrap64_fits(s);
        }
    }
    a.wrapping_add(b)
}

/// `lsub`.
pub fn long_sub(a: i64, b: i64) -> (r: i64)
    ensures
        r == lsub(a, b),
{
    proof {
        let s = a - b;
        if s > i64::MAX {
            lemma_wrap64_fits(s - 0x1_0000_0000_0000_0000);
            lemma_mod_multiples_vanish(-1, s, 0x1_0000_0000_0000_0000);
        } else if s < i64::MIN {
            lemma_wrap64_fits(s + 0x1_0000_0000_0000_0000);
            lemma_mod_multiples_vanish(1, s, 0x1_0000_0000_0000_0000);
        } else {
            lemma_wrap64_fits(s);
        }
    }
    a.wrapping_sub(b)
}

/// `lmul`.
pub fn long_mul(a: i64, b: i64) -> (r: i64)
    ensures
        r == lmul(a, b),
{
    a.wrapping_mul(b)
}

/// `lneg`.
pub fn long_neg(a: i64) -> (r: i64)
    ensures
        r == lneg(a),
{
    long_sub(0, a)
}

/// `ldiv`; `None` for a zero divisor.
pub fn long_div(a: i64, b: i64) -> (r: Option<i64>)
    ensures
        r is None <==> b == 0,
        r matches Some(q) ==> q == ldiv(a, b),
{
    if b == 0 {
        None
    } else if a == i64::MIN && b == -1 {
        proof {
            lemma_small_mod(0x8000_0000_0000_0000, 0x1_0000_0000_0000_0000);
            assert(0x8000_0000_0000_0000int / 1 == 0x8000_0000_0000_0000int) by (nonlinear_arith);
            assert(truncated_quotient(a as int, b as int) == 0x8000_0000_0000_0000int);
        }
        Some(i64::MIN)
    } else {
        let q = a.checked_div(b);
        proof {
            let t = truncated_quotient(a as int, b as int);
            lemma_quotient_bounds(a as int, b as int);
            if a < 0 && b < -1 {
                lemma_div_is_ordered_by_denominator(-a, 2, -b);
            }
            if a == 0 {
                lemma_zero_quotient(b as int);
            }
            lemma_wrap64_fits(t);
            assert(q == Some(t as i64));
        }
        q
    }
}

/// `lrem`; `None` for a zero divisor.
pub fn long_rem(a: i64, b: i64) -> (r: Option<i64>)
    ensures
        r is None <==> b == 0,
        r matches Some(m) ==> m == lrem(a, b),
{
    if b == 0 {
        None
    } else if a == i64::MIN && b == -1 {
        proof {
            lemma_small_mod(0, 0x1_0000_0000_0000_0000);
            assert(0x8000_0000_0000_0000int / 1 == 0x8000_0000_0000_0000int) by (nonlinear_arith);
            assert(truncated_quotient(a as int, b as int) == 0x8000_0000_0000_0000int);
            assert(a - b * truncated_quotient(a as int, b as int) == 0);
        }
        Some(0)
    } else {
        let m = a.checked_rem(b);
        proof {
            lemma_quotient_bounds(a as int, b as int);
            lemma_remainder(a as int, b as int);
            if a == 0 {
                lemma_zero_quotient(b as int);
            }
            lemma_wrap64_fits(a - b * truncated_quotient(a as int, b as int));
            assert(m == Some((a - b * truncated_quotient(a as int, b as int)) as i64));
        }
        m
    }
}

/// The byte that holds the low eight bits of `v`.
pub open spec fn wrap8(v: int) -> i8 {
    if v % 0x100 >= 0x80 {
        (v % 0x100 - 0x100) as i8
    } else {
        (v % 0x100) as i8
    }
}

/// The short that holds the low sixteen bits of `v`.
pub open spec fn wrap16(v: int) -> i16 {
    if v % 0x1_0000 >= 0x8000 {
        (v % 0x1_0000 - 0x1_0000) as i16
    } else {
        (v % 0x1_0000) as i16
    }
}

/// The char that holds the low sixteen bits of `v`.
pub open spec fn wrap_char(v: int) -> u16 {
    (v % 0x1_0000) as u16
}

/// Whether the lowest bit of `v` is set.
pub open spec fn low_bit(v: int) -> bool {
    v % 2 == 1
}

/// The low `2^k` part of an int, for the power `modulus` of two that
/// divides 2^31: the remainder of `v` by `modulus`.
fn low_part(v: i32, modulus: u64) -> (r: u64)
    requires
        modulus == 2 || modulus == 0x100 || modulus == 0x1_0000,
    ensures
        r == (v as int) % (modulus as int),
{
    let shifted: u64 = (v as i64 + 0x8000_0000) as u64;
    proof {
        if modulus == 2 {
            lemma_mod_multiples_vanish(0x4000_0000, v as int, 2);
        } else if modulus == 0x100 {
            lemma_mod_multiples_vanish(0x80_0000, v as int, 0x100);
        } else {
            lemma_mod_multiples_vanish(0x8000, v as int, 0x1_0000);
        }
    }
    shifted % modulus
}

/// An int narrowed to a byte: its low eight bits.
pub fn int_to_byte(v: i32) -> (r: i8)
    ensures
        r == wrap8(v as int),
{
    let low = low_part(v, 0x100);
    if low >= 0x80 {
        (low as i64 - 0x100) as i8
    } else {
        low as i8
    }
}

/// An int narrowed to a short: its low sixteen bits.
pub fn int_to_short(v: i32) -> (r: i16)
    ensures
        r == wrap16(v as int),
{
    let low = low_part(v, 0x1_0000);
    if low >= 0x8000 {
        (low as i64 - 0x1_0000) as i16
    } else {
        low as i16
    }
}

/// An int narrowed to a char: its low sixteen bits.
pub fn int_to_char(v: i32) -> (r: u16)
    ensures
        r == wrap_char(v as int),
{
    low_part(v, 0x1_0000) as u16
}

/// An int narrowed to a boolean: its lowest bit.
pub fn int_to_boolean(v: i32) -> (r: bool)
    ensures
        r == low_bit(v as int),
{
    low_part(v, 2) == 1
}

} // verus!
