//! Exact integer arithmetic of the `int` and `long` instructions.

use vstd::prelude::*;
use crate::value::Slot;
use crate::state::{self, trunc_div, trunc_rem};
use crate::opcode;

verus! {

/// Truncating division never grows the magnitude, and halves it at least when the divisor
/// is neither 1 nor -1.
pub proof fn lemma_trunc_div_bounds(x: int, d: int)
    requires
        d != 0,
    ensures
        d == 1 ==> trunc_div(x, d) == x,
        d == -1 ==> trunc_div(x, d) == -x,
        d != 1 && d != -1 ==> -x <= 2 * trunc_div(x, d) <= x || x <= 2 * trunc_div(x, d) <= -x,
{
    if x > 0 && d > 1 {
        assert(2 * (x / d) <= x) by (nonlinear_arith)
            requires
                x > 0,
                d > 1,
        ;
        assert(0 <= x / d) by (nonlinear_arith)
            requires
                x > 0,
                d > 1,
        ;
    } else if x < 0 && d < -1 {
        assert(2 * ((-x) / (-d)) <= -x) by (nonlinear_arith)
            requires
                -x > 0,
                -d > 1,
        ;
        assert(0 <= (-x) / (-d)) by (nonlinear_arith)
            requires
                -x > 0,
                -d > 1,
        ;
    } else if x < 0 && d > 1 {
        assert(2 * ((-x) / d) <= -x) by (nonlinear_arith)
            requires
                -x > 0,
                d > 1,
        ;
        assert(0 <= (-x) / d) by (nonlinear_arith)
            requires
                -x > 0,
                d > 1,
        ;
    } else if x > 0 && d < -1 {
        assert(2 * (x / (-d)) <= x) by (nonlinear_arith)
            requires
                x > 0,
                -d > 1,
        ;
        assert(0 <= x / (-d)) by (nonlinear_arith)
            requires
                x > 0,
                -d > 1,
        ;
    }
}

/// The remainder of truncating division has the sign of the dividend and is smaller in
/// magnitude than the divisor.
pub proof fn lemma_trunc_rem_bounds(x: int, d: int)
    requires
        d != 0,
    ensures
        x >= 0 ==> 0 <= trunc_rem(x, d) < (if d > 0 { d } else { -d }),
        x < 0 ==> -(if d > 0 { d } else { -d }) < trunc_rem(x, d) <= 0,
{
    if x > 0 && d > 0 {
        assert(0 <= x % d < d) by (nonlinear_arith)
            requires
                d > 0,
        ;
    } else if x < 0 && d < 0 {
        assert(0 <= (-x) % (-d) < -d) by (nonlinear_arith)
            requires
                -d > 0,
        ;
    } else if x < 0 && d > 0 {
        assert(0 <= (-x) % d < d) by (nonlinear_arith)
            requires
                d > 0,
        ;
    } else if x > 0 && d < 0 {
        assert(0 <= x % (-d) < -d) by (nonlinear_arith)
            requires
                -d > 0,
        ;
    }
}

/// The quotient of `a` by `b` as `idiv` computes it.
pub fn int_div(a: i32, b: i32) -> (r: i32)
    requires
        b != 0,
    ensures
        r == (if a == i32::MIN && b == -1 {
            i32::MIN
        } else {
            trunc_div(a as int, b as int) as i32
        }),
{
    proof {
        lemma_trunc_div_bounds(a as int, b as int);
    }
    if b == -1 {
        if a == i32::MIN {
            i32::MIN
        } else {
            0i32 - a
        }
    } else {
        match a.checked_div(b) {
            Some(q) => q,
            None => 0,
        }
    }
}

/// The quotient of `a` by `b` as `ldiv` computes it.
pub fn long_div(a: i64, b: i64) -> (r: i64)
    requires
        b != 0,
    ensures
        r == (if a == i64::MIN && b == -1 {
            i64::MIN
        } else {
            trunc_div(a as int, b as int) as i64
        }),
{
    proof {
        lemma_trunc_div_bounds(a as int, b as int);
    }
    if b == -1 {
        if a == i64::MIN {
            i64::MIN
        } else {
            0i64 - a
        }
    } else {
        match a.checked_div(b) {
            Some(q) => q,
            None => 0,
        }
    }
}

/// The remainder of `a` by `b` as `irem` computes it.
pub fn int_rem(a: i32, b: i32) -> (r: i32)
    requires
        b != 0,
    ensures
        r == trunc_rem(a as int, b as int) as i32,
{
    if b == -1 {
        assert(trunc_rem(a as int, b as int) == 0);
        0
    } else {
        match a.checked_rem(b) {
            Some(q) => q,
            None => 0,
        }
    }
}

/// The remainder of `a` by `b` as `lrem` computes it.
pub fn long_rem(a: i64, b: i64) -> (r: i64)
    requires
        b != 0,
    ensures
        r == trunc_rem(a as int, b as int) as i64,
{
    if b == -1 {
        assert(trunc_rem(a as int, b as int) == 0);
        0
    } else {
        match a.checked_rem(b) {
            Some(q) => q,
            None => 0,
        }
    }
}

/// The shift count of an `int` shift: the low five bits of `b`.
fn int_shift_count(b: i32) -> (r: u32)
    ensures
        r == (b & 0x1f) as u32,
        r < 32,
{
    assert(0 <= b & 0x1f < 32) by (bit_vector);
    (b & 0x1f) as u32
}

/// The shift count of a `long` shift: the low six bits of `b`.
fn long_shift_count(b: i32) -> (r: u32)
    ensures
        r == (b & 0x3f) as u32,
        r < 64,
{
    assert(0 <= b & 0x3f < 64) by (bit_vector);
    (b & 0x3f) as u32
}

/// The result of the `int` instruction `op`; divisions need a divisor other than 0.
pub fn int_arith_exec(op: u8, a: i32, b: i32) -> (r: i32)
    requires
        state::is_int_binop(op),
        !(state::is_division(op) && b == 0),
    ensures
        r == state::int_arith(op, a, b),
{
    if op == opcode::IADD {
        a.wrapping_add(b)
    } else if op == opcode::ISUB {
        a.wrapping_sub(b)
    } else if op == opcode::IMUL {
        a.wrapping_mul(b)
    } else if op == opcode::IAND {
        a & b
    } else if op == opcode::IOR {
        a | b
    } else if op == opcode::IXOR {
        a ^ b
    } else if op == opcode::ISHL {
        a.wrapping_shl(int_shift_count(b))
    } else if op == opcode::ISHR {
        a.wrapping_shr(int_shift_count(b))
    } else if op == opcode::IUSHR {
        ((a as u32) >> int_shift_count(b)) as i32
    } else if op == opcode::IDIV {
        int_div(a, b)
    } else {
        int_rem(a, b)
    }
}

/// The result of the `long` instruction `op`; divisions need a divisor other than 0.
pub fn long_arith_exec(op: u8, a: i64, b: i64) -> (r: i64)
    requires
        state::is_long_binop(op),
        !(state::is_division(op) && b == 0),
    ensures
        r == state::long_arith(op, a, b),
{
    if op == opcode::LADD {
        a.wrapping_add(b)
    } else if op == opcode::LSUB {
        a.wrapping_sub(b)
    } else if op == opcode::LMUL {
        a.wrapping_mul(b)
    } else if op == opcode::LAND {
        a & b
    } else if op == opcode::LOR {
        a | b
    } else if op == opcode::LXOR {
        a ^ b
    } else if op == opcode::LDIV {
        long_div(a, b)
    } else {
        long_rem(a, b)
    }
}

/// The result of the `long` shift `op`.
pub fn long_shift_exec(op: u8, a: i64, b: i32) -> (r: i64)
    ensures
        r == state::long_shift(op, a, b),
{
    if op == opcode::LSHL {
        a.wrapping_shl(long_shift_count(b))
    } else if op == opcode::LSHR {
        a.wrapping_shr(long_shift_count(b))
    } else {
        ((a as u64) >> long_shift_count(b)) as i64
    }
}
/// The result of a negation or an integral conversion.
pub fn unary_exec(op: u8, v: Slot) -> (r: Slot)
    ensures
        r == state::unary_result(op, v),
{
    let i = match v {
        Slot::Int(i) => i,
        _ => 0,
    };
    let l = match v {
        Slot::Long(l) => l,
        _ => 0,
    };
    if op == opcode::INEG {
        Slot::Int(0i32.wrapping_sub(i))
    } else if op == opcode::LNEG {
        Slot::Long(0i64.wrapping_sub(l))
    } else if op == opcode::I2L {
        Slot::Long(i as i64)
    } else if op == opcode::L2I {
        Slot::Int(l as i32)
    } else if op == opcode::I2B {
        Slot::Int(i as i8 as i32)
    } else if op == opcode::I2C {
        Slot::Int(i as u16 as i32)
    } else {
        Slot::Int(i as i16 as i32)
    }
}

} // verus!
