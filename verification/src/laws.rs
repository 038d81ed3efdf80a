//! Properties of the instruction set that span several instructions or every one of them.

use vstd::prelude::*;
use crate::value::{Slot, Kind, has_kind, ExceptionKind};
use crate::model::ObjKind;
use crate::stack::{peek_at, drop_top};
use crate::opcode;
use crate::state::{
    FrameState, Stop, push, pop_n, top, with_pc, with_stack, with_locals, int_of, int_arith,
    long_arith, icmp_cond, branch_spec, if_icmp_spec, unary_result, readable, advance, with_return,
    shuffle_spec, store_spec, load_spec, array_store_spec, array_load_spec, put_static_spec,
    get_static_spec, resolve_field, u2_at, lcmp_spec, raise, trunc_div, trunc_rem,
};
use crate::step::{instr_spec, is_float_op, run_spec};

verus! {

/// `swap` twice leaves the frame as it was.
pub proof fn law_swap_twice(s: FrameState)
    requires
        s.stack.len() >= 2,
    ensures
        shuffle_spec(s, 2, seq![0usize, 1]) matches Ok(s1) && shuffle_spec(s1, 2, seq![0usize, 1])
            == Ok::<FrameState, crate::value::Fault>(s),
{
    let s1 = shuffle_spec(s, 2, seq![0usize, 1])->Ok_0;
    assert(s1.stack.len() == s.stack.len());
    let s2 = shuffle_spec(s1, 2, seq![0usize, 1])->Ok_0;
    assert(s2.stack =~= s.stack);
    assert(s2 =~= s);
}

/// `dup` followed by `pop` leaves the frame as it was.
pub proof fn law_dup_pop(s: FrameState)
    requires
        s.stack.len() >= 1,
    ensures
        shuffle_spec(s, 1, seq![0usize, 0]) matches Ok(s1) && shuffle_spec(
            s1,
            1,
            Seq::<usize>::empty(),
        ) == Ok::<FrameState, crate::value::Fault>(s),
{
    let s1 = shuffle_spec(s, 1, seq![0usize, 0])->Ok_0;
    assert(s1.stack.len() == s.stack.len() + 1);
    let s2 = shuffle_spec(s1, 1, Seq::<usize>::empty())->Ok_0;
    assert(s2.stack =~= s.stack);
    assert(s2 =~= s);
}

/// A load of local `idx` right after a store of a value of kind `k` into it pushes that
/// value back: the stack is as before the store, and the local holds the value.
pub proof fn law_store_then_load(s: FrameState, k: Kind, idx: int)
    requires
        s.stack.len() >= 1,
        has_kind(top(s, 0), k),
        0 <= idx < s.locals.len(),
    ensures
        store_spec(s, k, idx) matches Ok(s1) && load_spec(s1, k, idx) == Ok::<
            FrameState,
            crate::value::Fault,
        >(with_locals(s, s.locals.update(idx, top(s, 0)))),
{
    let s1 = store_spec(s, k, idx)->Ok_0;
    let s2 = load_spec(s1, k, idx)->Ok_0;
    assert(s2.stack =~= s.stack);
    assert(s2 =~= with_locals(s, s.locals.update(idx, top(s, 0))));
}

/// An array load at the index an array store just wrote gives back the stored value.
pub proof fn law_array_store_then_load(s: FrameState, k: Kind, h: usize, pos: i32)
    requires
        s.stack.len() >= 3,
        has_kind(top(s, 0), k),
        top(s, 1) == Slot::Int(pos),
        top(s, 2) == Slot::Ref(h),
        h < s.heap.len(),
        s.heap[h as int].kind == ObjKind::Array,
        0 <= pos < s.heap[h as int].slots.len(),
    ensures
        array_store_spec(s, k) matches Ok(s1) && array_load_spec(
            push(push(s1, Slot::Ref(h)), Slot::Int(pos)),
            k,
        ) == Ok::<FrameState, crate::value::Fault>(push(s1, top(s, 0))),
{
    let s1 = array_store_spec(s, k)->Ok_0;
    let s2 = push(push(s1, Slot::Ref(h)), Slot::Int(pos));
    assert(peek_at(s2.stack, 0) == Slot::Int(pos));
    assert(peek_at(s2.stack, 1) == Slot::Ref(h));
    assert(drop_top(s2.stack, 2) =~= s1.stack);
    assert(pop_n(s2, 2) =~= s1);
}

/// A `getstatic` of the field a `putstatic` has just written, read from the same operand
/// bytes, pushes the written value.
pub proof fn law_put_then_get_static(s: FrameState)
    requires
        put_static_spec(s) is Ok,
    ensures
        get_static_spec(with_pc(put_static_spec(s)->Ok_0, s.pc as int)) == Ok::<
            FrameState,
            crate::value::Fault,
        >(push(put_static_spec(s)->Ok_0, top(s, 0))),
{
    let s1 = put_static_spec(s)->Ok_0;
    let s2 = with_pc(s1, s.pc as int);
    assert(s2.code == s.code && s2.pc == s.pc && s2.cp == s.cp && s2.fields == s.fields);
    assert(u2_at(s2) == u2_at(s));
    assert(resolve_field(s2, u2_at(s2), true) == resolve_field(s, u2_at(s), true));
    assert(with_pc(s2, s2.pc + 2) =~= s1);
}

/// Truncating quotient and remainder recompose the dividend.
proof fn lemma_trunc_recompose(x: int, d: int)
    requires
        d != 0,
    ensures
        trunc_div(x, d) * d + trunc_rem(x, d) == x,
{
    crate::arith::lemma_trunc_div_bounds(x, d);
    crate::arith::lemma_trunc_rem_bounds(x, d);
    if x == 0 {
        assert(trunc_div(x, d) * d + trunc_rem(x, d) == x);
    } else if x > 0 && d > 0 {
        assert(x == (x / d) * d + x % d) by (nonlinear_arith)
            requires
                d > 0,
        ;
        assert(trunc_div(x, d) * d + trunc_rem(x, d) == x);
    } else if x < 0 && d < 0 {
        let q = (-x) / (-d);
        let r = (-x) % (-d);
        assert(-x == q * (-d) + r) by (nonlinear_arith)
            requires
                -d > 0,
                q == (-x) / (-d),
                r == (-x) % (-d),
        ;
        assert(q * d + (-r) == x) by (nonlinear_arith)
            requires
                -x == q * (-d) + r,
        ;
        assert(trunc_div(x, d) * d + trunc_rem(x, d) == x);
    } else if x < 0 && d > 0 {
        let q = (-x) / d;
        let r = (-x) % d;
        assert(-x == q * d + r) by (nonlinear_arith)
            requires
                d > 0,
                q == (-x) / d,
                r == (-x) % d,
        ;
        assert((-q) * d + (-r) == x) by (nonlinear_arith)
            requires
                -x == q * d + r,
        ;
        assert(trunc_div(x, d) * d + trunc_rem(x, d) == x);
    } else if x > 0 && d < 0 {
        let q = x / (-d);
        let r = x % (-d);
        assert(x == q * (-d) + r) by (nonlinear_arith)
            requires
                -d > 0,
                q == x / (-d),
                r == x % (-d),
        ;
        assert((-q) * d + r == x) by (nonlinear_arith)
            requires
                x == q * (-d) + r,
        ;
        assert(trunc_div(x, d) * d + trunc_rem(x, d) == x);
    }
    assert(trunc_div(x, d) * d + trunc_rem(x, d) == x);
}

/// Quotient and remainder of `idiv` and `irem` recompose the dividend, and the remainder
/// is smaller in magnitude than the divisor and has the sign of the dividend (so the
/// quotient is the true quotient truncated towards zero). This holds for every divisor
/// but 0 and every dividend but `i32::MIN` divided by -1, whose quotient wraps.
pub proof fn law_div_rem(a: i32, b: i32)
    requires
        b != 0,
        !(a == i32::MIN && b == -1),
    ensures
        int_arith(opcode::IDIV, a, b) * b + int_arith(opcode::IREM, a, b) == a,
        -(if b > 0 { b as int } else { -b }) < int_arith(opcode::IREM, a, b) < (if b > 0 {
            b as int
        } else {
            -b
        }),
        a >= 0 ==> int_arith(opcode::IREM, a, b) >= 0,
        a <= 0 ==> int_arith(opcode::IREM, a, b) <= 0,
{
    let x = a as int;
    let d = b as int;
    crate::arith::lemma_trunc_div_bounds(x, d);
    crate::arith::lemma_trunc_rem_bounds(x, d);
    lemma_trunc_recompose(x, d);
    assert(int_arith(opcode::IDIV, a, b) == trunc_div(x, d));
    assert(int_arith(opcode::IREM, a, b) == trunc_rem(x, d));
}

/// Quotient and remainder of `ldiv` and `lrem` recompose the dividend, and the remainder
/// is smaller in magnitude than the divisor and has the sign of the dividend (so the
/// quotient is the true quotient truncated towards zero, of the sign of `a * b`). This
/// holds for every divisor but 0 and every dividend but `i64::MIN` divided by -1, whose
/// quotient wraps.
pub proof fn law_long_div_rem(a: i64, b: i64)
    requires
        b != 0,
        !(a == i64::MIN && b == -1),
    ensures
        long_arith(opcode::LDIV, a, b) * b + long_arith(opcode::LREM, a, b) == a,
        -(if b > 0 { b as int } else { -b }) < long_arith(opcode::LREM, a, b) < (if b > 0 {
            b as int
        } else {
            -b
        }),
        a >= 0 ==> long_arith(opcode::LREM, a, b) >= 0,
        a <= 0 ==> long_arith(opcode::LREM, a, b) <= 0,
{
    let x = a as int;
    let d = b as int;
    crate::arith::lemma_trunc_div_bounds(x, d);
    crate::arith::lemma_trunc_rem_bounds(x, d);
    lemma_trunc_recompose(x, d);
    assert(long_arith(opcode::LDIV, a, b) == trunc_div(x, d));
    assert(long_arith(opcode::LREM, a, b) == trunc_rem(x, d));
}

/// `lcmp` answers the opposite sign when its two operands are exchanged.
pub proof fn law_lcmp_antisymmetric(s: FrameState, a: i64, b: i64)
    requires
        s.stack.len() >= 2,
        top(s, 0) == Slot::Long(a),
        top(s, 1) == Slot::Long(b),
    ensures
        lcmp_spec(s) matches Ok(s1) && lcmp_spec(
            with_stack(s, drop_top(s.stack, 2).push(Slot::Long(a)).push(Slot::Long(b))),
        ) matches Ok(s2) && int_of(top(s1, 0)) == -int_of(top(s2, 0)),
{
    let t = with_stack(s, drop_top(s.stack, 2).push(Slot::Long(a)).push(Slot::Long(b)));
    assert(top(t, 0) == Slot::Long(b));
    assert(top(t, 1) == Slot::Long(a));
}

/// A raised exception is answered: the new exception object ends the heap, and either a
/// handler receives it as the only slot of the stack, or it becomes the returned value
/// with the stack emptied.
pub proof fn law_raise_answered(s: FrameState, k: ExceptionKind, msg: Seq<u8>)
    ensures
        raise(s, k, msg).heap.len() == s.heap.len() + 1,
        raise(s, k, msg).heap.last().kind == ObjKind::Throwable(k),
        raise(s, k, msg).heap.last().bytes == msg,
        raise(s, k, msg).stack == seq![Slot::Ref(s.heap.len() as usize)] || (raise(s, k, msg).stack
            == Seq::<Slot>::empty() && raise(s, k, msg).return_v == Some(
            Slot::Ref(s.heap.len() as usize),
        )),
{
}

/// A run that stopped before its budget ran out stops the same way, in the same state,
/// with any larger budget.
pub proof fn law_run_budget(s: FrameState, n: nat, m: nat)
    requires
        n <= m,
        run_spec(s, n).0 != Ok::<Stop, crate::value::Fault>(Stop::OutOfFuel),
    ensures
        run_spec(s, m) == run_spec(s, n),
    decreases n,
{
    if n > 0 {
        match crate::step::fetch(s) {
            None => {},
            Some(op) => {
                let s1 = crate::state::advance(s, 1);
                if !is_float_op(op) {
                    match instr_spec(s1, op) {
                        Err(_) => {},
                        Ok(s2) => {
                            if !crate::step::is_return_op(op) {
                                law_run_budget(s2, (n - 1) as nat, (m - 1) as nat);
                            }
                        },
                    }
                }
            },
        }
    }
}

/// What every instruction keeps: the code, constant pool, exception table and field
/// table; the number of locals, statics and classes; and every existing heap object's
/// kind and size (the heap only grows).
pub open spec fn keeps_frame(s: FrameState, t: FrameState) -> bool {
    &&& t.code == s.code
    &&& t.cp == s.cp
    &&& t.handlers == s.handlers
    &&& t.fields == s.fields
    &&& t.locals.len() == s.locals.len()
    &&& t.statics.len() == s.statics.len()
    &&& t.classes.len() == s.classes.len()
    &&& s.heap.len() <= t.heap.len()
    &&& forall|i: int|
        0 <= i < s.heap.len() ==> #[trigger] t.heap[i].kind == s.heap[i].kind
            && t.heap[i].slots.len() == s.heap[i].slots.len()
}

proof fn lemma_raise_keeps(s: FrameState, k: ExceptionKind, msg: Seq<u8>)
    ensures
        keeps_frame(s, raise(s, k, msg)),
{
}

/// Every instruction the interpreter executes keeps the frame's code, constant pool,
/// exception table and field table, the sizes of its tables, and its heap objects.
pub proof fn law_instruction_keeps_frame(s: FrameState, op: u8)
    requires
        instr_spec(s, op) is Ok,
    ensures
        keeps_frame(s, instr_spec(s, op)->Ok_0),
{
    lemma_raise_keeps(s, ExceptionKind::NullPointer, Seq::empty());
    let t = instr_spec(s, op)->Ok_0;
    assert(keeps_frame(s, t));
}

proof fn lemma_keeps_trans(a: FrameState, b: FrameState, c: FrameState)
    requires
        keeps_frame(a, b),
        keeps_frame(b, c),
    ensures
        keeps_frame(a, c),
{
    assert forall|i: int| 0 <= i < a.heap.len() implies #[trigger] c.heap[i].kind == a.heap[i].kind
        && c.heap[i].slots.len() == a.heap[i].slots.len() by {
        assert(b.heap[i].kind == a.heap[i].kind);
    }
}

/// A whole run of the interpreter keeps what every instruction keeps.
pub proof fn law_run_keeps_frame(s: FrameState, n: nat)
    ensures
        keeps_frame(s, run_spec(s, n).1),
    decreases n,
{
    if n > 0 {
        match crate::step::fetch(s) {
            None => {},
            Some(op) => {
                let s1 = crate::state::advance(s, 1);
                if !is_float_op(op) {
                    match instr_spec(s1, op) {
                        Err(_) => {},
                        Ok(s2) => {
                            law_instruction_keeps_frame(s1, op);
                            if !crate::step::is_return_op(op) {
                                law_run_keeps_frame(s2, (n - 1) as nat);
                                lemma_keeps_trans(s, s2, run_spec(s2, (n - 1) as nat).1);
                            }
                        },
                    }
                }
            },
        }
    }
}

/// `pc` is the handler pc of some entry of `hs`.
pub open spec fn is_handler_pc(hs: Seq<crate::model::ExceptionHandler>, pc: int) -> bool {
    exists|i: int| 0 <= i < hs.len() && #[trigger] hs[i].handler_pc == pc
}

proof fn lemma_handler_from(hs: Seq<crate::model::ExceptionHandler>, pc: i32, k: ObjKind, i: int)
    ensures
        crate::state::handler_from(hs, pc, k, i) == 0 || is_handler_pc(
            hs,
            crate::state::handler_from(hs, pc, k, i),
        ),
    decreases hs.len() - i,
{
    if 0 <= i < hs.len() {
        if !(hs[i].start_pc <= pc < hs[i].end_pc && crate::model::catches(hs[i].catch, k)) {
            lemma_handler_from(hs, pc, k, i + 1);
        }
    }
}

/// The program counter after an instruction: at or past where it was, or at an exception
/// handler.
pub open spec fn pc_forward_or_handler(s: FrameState, t: FrameState) -> bool {
    t.pc >= s.pc || is_handler_pc(s.handlers, t.pc as int)
}

/// Control never moves backwards but to an exception handler: branch offsets are read
/// unsigned, so every branch lands past its own offset bytes.
pub proof fn law_pc_forward_or_handler(s: FrameState, op: u8)
    requires
        instr_spec(s, op) is Ok,
    ensures
        pc_forward_or_handler(s, instr_spec(s, op)->Ok_0),
{
    assert forall|k: ObjKind, p: i32| true implies crate::state::handler_for(s.handlers, p, k) == 0
        || is_handler_pc(s.handlers, crate::state::handler_for(s.handlers, p, k)) by {
        lemma_handler_from(s.handlers, p, k, 0);
    }
}

/// A return instruction ends the run: when the opcode at the program counter is one of
/// `ireturn` .. `return` (0xac .. 0xb1) and executes without a fault, every run with a
/// budget of at least one stops with `Returned`, in the state that instruction leaves.
pub proof fn law_return_ends_run(s: FrameState, n: nat)
    requires
        n >= 1,
        0 <= s.pc < s.code.len(),
        s.pc < i32::MAX,
        0xac <= s.code[s.pc as int] <= 0xb1,
        instr_spec(advance(s, 1), s.code[s.pc as int]) is Ok,
    ensures
        run_spec(s, n) == (
            Ok::<Stop, crate::value::Fault>(Stop::Returned),
            instr_spec(advance(s, 1), s.code[s.pc as int])->Ok_0,
        ),
{
}

/// The void `return` (0xb1) ends every run with a budget of at least one: `null` is the
/// returned value, the program counter is just past the opcode, and the stack, locals and
/// heap are untouched.
pub proof fn law_void_return_ends_run(s: FrameState, n: nat)
    requires
        n >= 1,
        0 <= s.pc < s.code.len(),
        s.pc < i32::MAX,
        s.code[s.pc as int] == 0xb1,
    ensures
        run_spec(s, n).0 == Ok::<Stop, crate::value::Fault>(Stop::Returned),
        run_spec(s, n).1.return_v == Some(Slot::Null),
        run_spec(s, n).1.pc == s.pc + 1,
        run_spec(s, n).1.stack == s.stack,
        run_spec(s, n).1.locals == s.locals,
        run_spec(s, n).1.heap == s.heap,
{
}

/// The six integer comparisons branch on the order of value1 (the deeper int) and
/// value2 (the top): `if_icmplt` exactly when value1 < value2, `if_icmpeq` exactly when
/// they are equal; `if_icmpgt` is `if_icmplt` with the operands exchanged; and each of
/// `if_icmpge`, `if_icmple`, `if_icmpne` branches exactly when its opposite does not.
pub proof fn law_icmp_conditions(a: i32, b: i32)
    ensures
        icmp_cond(opcode::IF_ICMPLT, a, b) <==> a < b,
        icmp_cond(opcode::IF_ICMPEQ, a, b) <==> a == b,
        icmp_cond(opcode::IF_ICMPGT, a, b) == icmp_cond(opcode::IF_ICMPLT, b, a),
        icmp_cond(opcode::IF_ICMPGE, a, b) <==> !icmp_cond(opcode::IF_ICMPLT, a, b),
        icmp_cond(opcode::IF_ICMPLE, a, b) <==> !icmp_cond(opcode::IF_ICMPGT, a, b),
        icmp_cond(opcode::IF_ICMPNE, a, b) <==> !icmp_cond(opcode::IF_ICMPEQ, a, b),
{
}

/// `if_icmplt` on value1 `a` (deeper) and value2 `b` (top) pops both and moves the program
/// counter to itself plus one plus the offset when `a < b`, and past the offset otherwise.
pub proof fn law_if_icmplt_branches(s: FrameState, a: i32, b: i32)
    requires
        s.stack.len() >= 2,
        top(s, 0) == Slot::Int(b),
        top(s, 1) == Slot::Int(a),
        readable(s, 2),
        s.pc + 1 + u2_at(s) <= i32::MAX,
    ensures
        if_icmp_spec(s, opcode::IF_ICMPLT) matches Ok(t) && t.stack == drop_top(s.stack, 2) && (a
            < b ==> t.pc == s.pc + 1 + u2_at(s)) && (a >= b ==> t.pc == s.pc + 2),
{
    law_icmp_conditions(a, b);
}

/// `l2i` keeps the low 32 bits of the long: the int it gives agrees with the long on
/// every bit below bit 32 (it is the int congruent to the long modulo 2^32).
pub proof fn law_l2i_keeps_low_bits(x: i64)
    ensures
        unary_result(opcode::L2I, Slot::Long(x)) matches Slot::Int(y) && (y as i64) & 0xffff_ffff
            == x & 0xffff_ffff,
{
    let y = x as i32;
    assert((y as i64) & 0xffff_ffff == x & 0xffff_ffff) by (bit_vector)
        requires
            y == x as i32,
    ;
}

/// `i2l` keeps the value of an int, and `l2i` after `i2l` gives back every int unchanged.
pub proof fn law_i2l_then_l2i(x: i32)
    ensures
        unary_result(opcode::I2L, Slot::Int(x)) matches Slot::Long(y) && y as int == x as int,
        unary_result(opcode::L2I, unary_result(opcode::I2L, Slot::Int(x))) == Slot::Int(x),
{
    assert(((x as i64) as i32) == x) by (bit_vector);
}

/// `ior` sets exactly the bits either operand has; `iand` exactly the bits both have;
/// `ixor` undone by the same operand gives the other back.
pub proof fn law_int_bitwise(a: i32, b: i32)
    ensures
        int_arith(opcode::IOR, a, b) & a == a,
        int_arith(opcode::IOR, a, b) & b == b,
        int_arith(opcode::IOR, a, b) & !a & !b == 0,
        int_arith(opcode::IAND, a, b) & a == int_arith(opcode::IAND, a, b),
        int_arith(opcode::IAND, a, b) & b == int_arith(opcode::IAND, a, b),
        a & b & !int_arith(opcode::IAND, a, b) == 0,
        int_arith(opcode::IXOR, a, b) ^ b == a,
        int_arith(opcode::IXOR, a, a) == 0,
{
    let o = int_arith(opcode::IOR, a, b);
    let n = int_arith(opcode::IAND, a, b);
    let x = int_arith(opcode::IXOR, a, b);
    assert(o & a == a && o & b == b && o & !a & !b == 0) by (bit_vector)
        requires
            o == a | b,
    ;
    assert(n & a == n && n & b == n && a & b & !n == 0) by (bit_vector)
        requires
            n == a & b,
    ;
    assert(x ^ b == a) by (bit_vector)
        requires
            x == a ^ b,
    ;
    assert(a ^ a == 0) by (bit_vector);
}

/// `lor` sets exactly the bits either operand has; `land` exactly the bits both have;
/// `lxor` undone by the same operand gives the other back.
pub proof fn law_long_bitwise(a: i64, b: i64)
    ensures
        long_arith(opcode::LOR, a, b) & a == a,
        long_arith(opcode::LOR, a, b) & b == b,
        long_arith(opcode::LOR, a, b) & !a & !b == 0,
        long_arith(opcode::LAND, a, b) & a == long_arith(opcode::LAND, a, b),
        long_arith(opcode::LAND, a, b) & b == long_arith(opcode::LAND, a, b),
        a & b & !long_arith(opcode::LAND, a, b) == 0,
        long_arith(opcode::LXOR, a, b) ^ b == a,
        long_arith(opcode::LXOR, a, a) == 0,
{
    let o = long_arith(opcode::LOR, a, b);
    let n = long_arith(opcode::LAND, a, b);
    let x = long_arith(opcode::LXOR, a, b);
    assert(o & a == a && o & b == b && o & !a & !b == 0) by (bit_vector)
        requires
            o == a | b,
    ;
    assert(n & a == n && n & b == n && a & b & !n == 0) by (bit_vector)
        requires
            n == a & b,
    ;
    assert(x ^ b == a) by (bit_vector)
        requires
            x == a ^ b,
    ;
    assert(a ^ a == 0) by (bit_vector);
}

} // verus!
