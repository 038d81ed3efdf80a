//! The mathematical state of a frame and the meaning of each instruction over it.
//!
//! An instruction's meaning is a `Result<FrameState, Fault>`: the state it leaves, or the
//! fault for which it refuses to run (and then leaves the frame as it was). The state
//! handed to an instruction has its program counter just past the opcode.

use vstd::prelude::*;
use crate::value::{Slot, Kind, has_kind, kind_of_type, default_value, ExceptionKind, Fault};
use crate::model::{ObjKind, ObjectView, ClassKind, ClassView, FieldInfo, ConstantView, ExceptionHandler, catches};
use crate::stack::{peek_at, drop_top};
use crate::text::{index_message, div_zero_message};
use crate::opcode;

verus! {

/// The state of a frame: its code and program counter, locals, operand stack, returned
/// value, constant pool and exception table, and the runtime it works on.
#[verifier::ext_equal]
pub struct FrameState {
    pub code: Seq<u8>,
    pub pc: i32,
    pub locals: Seq<Slot>,
    pub stack: Seq<Slot>,
    pub return_v: Option<Slot>,
    pub cp: Seq<ConstantView>,
    pub handlers: Seq<ExceptionHandler>,
    pub heap: Seq<ObjectView>,
    pub statics: Seq<Slot>,
    pub classes: Seq<ClassView>,
    pub fields: Seq<FieldInfo>,
}

/// How an execution of instructions stopped.
#[derive(Clone, Copy, PartialEq, Eq, Structural, Debug)]
pub enum Stop {
    /// A return instruction ran.
    Returned,
    /// The program counter left the code.
    CodeEnd,
    /// The next instruction computes on `float` or `double` values; it is left to the
    /// caller, with the program counter past its opcode.
    FloatOp(u8),
    /// The step budget ran out.
    OutOfFuel,
}

/// `r` and `post` are what an instruction whose meaning is `o` gives on `pre`.
pub open spec fn outcome(
    pre: FrameState,
    post: FrameState,
    r: Result<(), Fault>,
    o: Result<FrameState, Fault>,
) -> bool {
    match o {
        Ok(s) => r is Ok && post == s,
        Err(e) => r == Err::<(), Fault>(e) && post == pre,
    }
}

// ---------------------------------------------------------------------------------------
// Small pieces

pub open spec fn int_of(v: Slot) -> i32 {
    match v {
        Slot::Int(i) => i,
        _ => 0,
    }
}

pub open spec fn long_of(v: Slot) -> i64 {
    match v {
        Slot::Long(i) => i,
        _ => 0,
    }
}

/// The slot `depth` places below the top of the stack.
pub open spec fn top(s: FrameState, depth: int) -> Slot {
    peek_at(s.stack, depth)
}

pub open spec fn with_stack(s: FrameState, st: Seq<Slot>) -> FrameState {
    FrameState { stack: st, ..s }
}

pub open spec fn push(s: FrameState, v: Slot) -> FrameState {
    with_stack(s, s.stack.push(v))
}

pub open spec fn pop_n(s: FrameState, n: int) -> FrameState {
    with_stack(s, drop_top(s.stack, n))
}

pub open spec fn with_pc(s: FrameState, pc: int) -> FrameState {
    FrameState { pc: pc as i32, ..s }
}

pub open spec fn advance(s: FrameState, n: int) -> FrameState {
    with_pc(s, s.pc + n)
}

pub open spec fn with_locals(s: FrameState, l: Seq<Slot>) -> FrameState {
    FrameState { locals: l, ..s }
}

pub open spec fn with_heap(s: FrameState, h: Seq<ObjectView>) -> FrameState {
    FrameState { heap: h, ..s }
}

pub open spec fn with_return(s: FrameState, v: Slot) -> FrameState {
    FrameState { return_v: Some(v), ..s }
}

/// `n` operand bytes follow the program counter in the code.
pub open spec fn readable(s: FrameState, n: int) -> bool {
    0 <= s.pc && s.pc + n <= s.code.len() && s.pc + n <= i32::MAX
}

/// The operand byte at the program counter, taken as an unsigned number.
pub open spec fn u1_at(s: FrameState) -> int {
    s.code[s.pc as int] as int
}

/// The operand byte after the program counter, taken as an unsigned number.
pub open spec fn u1_next(s: FrameState) -> int {
    s.code[s.pc + 1] as int
}

/// The two operand bytes at the program counter, taken as an unsigned big-endian number.
pub open spec fn u2_at(s: FrameState) -> int {
    u1_at(s) * 256 + u1_next(s)
}

/// The heap with object `h` replaced by `o`.
pub open spec fn set_object(s: FrameState, h: int, o: ObjectView) -> FrameState {
    with_heap(s, s.heap.update(h, o))
}

/// The heap object `h` with slot `i` set to `v`.
pub open spec fn set_slot(o: ObjectView, i: int, v: Slot) -> ObjectView {
    ObjectView { slots: o.slots.update(i, v), ..o }
}

/// `s` with a new object `o` at the end of the heap, and a reference to it pushed.
pub open spec fn alloc_push(s: FrameState, o: ObjectView) -> FrameState {
    push(with_heap(s, s.heap.push(o)), Slot::Ref(s.heap.len() as usize))
}

// ---------------------------------------------------------------------------------------
// Exceptions

/// The handler pc of the first entry of `hs` from index `i` on that covers `pc` and
/// catches an object of kind `k`; 0 when there is none.
pub open spec fn handler_from(hs: Seq<ExceptionHandler>, pc: i32, k: ObjKind, i: int) -> int
    decreases hs.len() - i,
{
    if i < 0 || i >= hs.len() {
        0
    } else if hs[i].start_pc <= pc < hs[i].end_pc && catches(hs[i].catch, k) {
        hs[i].handler_pc as int
    } else {
        handler_from(hs, pc, k, i + 1)
    }
}

/// The handler pc for an object of kind `k` thrown at `pc`; 0 when there is none.
pub open spec fn handler_for(hs: Seq<ExceptionHandler>, pc: i32, k: ObjKind) -> int {
    handler_from(hs, pc, k, 0)
}

/// The object `h`, already popped, is thrown: a handler above 0 receives it on an emptied
/// stack; otherwise it becomes the frame's returned value.
pub open spec fn throw_ref(s: FrameState, h: int) -> FrameState {
    let hp = handler_for(s.handlers, s.pc, s.heap[h].kind);
    if hp > 0 {
        with_pc(with_stack(s, seq![Slot::Ref(h as usize)]), hp)
    } else {
        with_return(s, Slot::Ref(h as usize))
    }
}

pub open spec fn throwable(k: ExceptionKind, msg: Seq<u8>) -> ObjectView {
    ObjectView { kind: ObjKind::Throwable(k), slots: Seq::empty(), bytes: msg, lock: 0 }
}

/// The interpreter raises an exception of kind `k`: a new exception object is allocated,
/// the stack is cleared, and the object is thrown.
pub open spec fn raise(s: FrameState, k: ExceptionKind, msg: Seq<u8>) -> FrameState {
    let h = s.heap.len();
    let s1 = with_stack(with_heap(s, s.heap.push(throwable(k, msg))), Seq::empty());
    throw_ref(s1, h as int)
}

pub open spec fn raise_npe(s: FrameState) -> FrameState {
    raise(s, ExceptionKind::NullPointer, Seq::empty())
}

// ---------------------------------------------------------------------------------------
// Constants, loads and stores

/// The meaning of `bipush`: the operand byte, zero-extended.
pub open spec fn bipush_spec(s: FrameState) -> Result<FrameState, Fault> {
    if !readable(s, 1) {
        Err(Fault::CodeOutOfRange)
    } else {
        Ok(push(advance(s, 1), Slot::Int(u1_at(s) as i32)))
    }
}

/// The meaning of `sipush`: the two operand bytes as an unsigned number.
pub open spec fn sipush_spec(s: FrameState) -> Result<FrameState, Fault> {
    if !readable(s, 2) {
        Err(Fault::CodeOutOfRange)
    } else {
        Ok(push(advance(s, 2), Slot::Int(u2_at(s) as i32)))
    }
}

/// Pushes the constant pool entry `pos`.
pub open spec fn load_constant_spec(s: FrameState, pos: int) -> Result<FrameState, Fault> {
    if pos < 0 || pos >= s.cp.len() {
        Err(Fault::BadConstant)
    } else {
        match s.cp[pos] {
            ConstantView::Integer(v) => Ok(push(s, Slot::Int(v))),
            ConstantView::Float(v) => Ok(push(s, Slot::Float(v))),
            ConstantView::Long(v) => Ok(push(s, Slot::Long(v))),
            ConstantView::Double(v) => Ok(push(s, Slot::Double(v))),
            ConstantView::String(i) => {
                if (i as int) < s.cp.len() && s.cp[i as int] is Utf8 {
                    let bytes = s.cp[i as int]->Utf8_0;
                    Ok(
                        alloc_push(
                            s,
                            ObjectView { kind: ObjKind::Str, slots: Seq::empty(), bytes, lock: 0 },
                        ),
                    )
                } else {
                    Err(Fault::BadConstant)
                }
            },
            ConstantView::Class(_) => Err(Fault::UnsupportedConstant),
            _ => Err(Fault::BadConstant),
        }
    }
}

/// `ldc` (one operand byte) and `ldc_w` / `ldc2_w` (two).
pub open spec fn ldc_spec(s: FrameState, width: int) -> Result<FrameState, Fault> {
    if !readable(s, width) {
        Err(Fault::CodeOutOfRange)
    } else {
        load_constant_spec(advance(s, width), if width == 1 { u1_at(s) } else { u2_at(s) })
    }
}

/// Pushes local `idx`, which must hold a value of kind `k`.
pub open spec fn load_spec(s: FrameState, k: Kind, idx: int) -> Result<FrameState, Fault> {
    if idx >= s.locals.len() {
        Err(Fault::LocalOutOfRange)
    } else if !has_kind(s.locals[idx], k) {
        Err(Fault::TypeMismatch)
    } else {
        Ok(push(s, s.locals[idx]))
    }
}

/// A load whose local index is the operand byte.
pub open spec fn load_op_spec(s: FrameState, k: Kind) -> Result<FrameState, Fault> {
    if !readable(s, 1) {
        Err(Fault::CodeOutOfRange)
    } else {
        load_spec(advance(s, 1), k, u1_at(s))
    }
}

/// Pops a value of kind `k` into local `idx`.
pub open spec fn store_spec(s: FrameState, k: Kind, idx: int) -> Result<FrameState, Fault> {
    if s.stack.len() < 1 {
        Err(Fault::StackUnderflow)
    } else if !has_kind(top(s, 0), k) {
        Err(Fault::TypeMismatch)
    } else if idx >= s.locals.len() {
        Err(Fault::LocalOutOfRange)
    } else {
        Ok(with_locals(pop_n(s, 1), s.locals.update(idx, top(s, 0))))
    }
}

/// A store whose local index is the operand byte.
pub open spec fn store_op_spec(s: FrameState, k: Kind) -> Result<FrameState, Fault> {
    if !readable(s, 1) {
        Err(Fault::CodeOutOfRange)
    } else {
        store_spec(advance(s, 1), k, u1_at(s))
    }
}

/// `iinc`: local (first operand byte) += second operand byte, zero-extended, wrapping.
pub open spec fn iinc_spec(s: FrameState) -> Result<FrameState, Fault> {
    if !readable(s, 2) {
        Err(Fault::CodeOutOfRange)
    } else if u1_at(s) >= s.locals.len() {
        Err(Fault::LocalOutOfRange)
    } else if !(s.locals[u1_at(s)] is Int) {
        Err(Fault::TypeMismatch)
    } else {
        let v = int_of(s.locals[u1_at(s)]);
        Ok(
            with_locals(
                advance(s, 2),
                s.locals.update(u1_at(s), Slot::Int(v.wrapping_add(u1_next(s) as i32))),
            ),
        )
    }
}

// ---------------------------------------------------------------------------------------
// Arrays

/// Why the reference `h` does not name an array of the heap, if it does not: a dangling
/// reference, or an object that is not an array.
pub open spec fn array_check(s: FrameState, h: usize) -> Option<Fault> {
    if h >= s.heap.len() {
        Some(Fault::DanglingReference)
    } else if s.heap[h as int].kind != ObjKind::Array {
        Some(Fault::TypeMismatch)
    } else {
        None
    }
}

/// `xaload`: pops an index and an array reference, pushes the element, which must be of
/// kind `k`.
pub open spec fn array_load_spec(s: FrameState, k: Kind) -> Result<FrameState, Fault> {
    if s.stack.len() < 2 {
        Err(Fault::StackUnderflow)
    } else if !(top(s, 0) is Int) || !has_kind(top(s, 1), Kind::Reference) {
        Err(Fault::TypeMismatch)
    } else {
        let pos = int_of(top(s, 0));
        let s1 = pop_n(s, 2);
        match top(s, 1) {
            Slot::Ref(h) => {
                if array_check(s, h) is Some {
                    Err(array_check(s, h)->0)
                } else {
                    let elems = s.heap[h as int].slots;
                    if pos < 0 || pos >= elems.len() {
                        Ok(
                            raise(
                                s1,
                                ExceptionKind::ArrayIndexOutOfBounds,
                                index_message(elems.len(), pos as int),
                            ),
                        )
                    } else if !has_kind(elems[pos as int], k) {
                        Err(Fault::TypeMismatch)
                    } else {
                        Ok(push(s1, elems[pos as int]))
                    }
                }
            },
            _ => Ok(raise_npe(s1)),
        }
    }
}

/// `xastore` but `aastore`: pops a value of kind `k`, an index and an array reference, and
/// stores the value.
pub open spec fn array_store_spec(s: FrameState, k: Kind) -> Result<FrameState, Fault> {
    if s.stack.len() < 3 {
        Err(Fault::StackUnderflow)
    } else if !has_kind(top(s, 0), k) || !(top(s, 1) is Int) || !has_kind(
        top(s, 2),
        Kind::Reference,
    ) {
        Err(Fault::TypeMismatch)
    } else {
        let pos = int_of(top(s, 1));
        let s1 = pop_n(s, 3);
        match top(s, 2) {
            Slot::Ref(h) => {
                if array_check(s, h) is Some {
                    Err(array_check(s, h)->0)
                } else {
                    let o = s.heap[h as int];
                    if pos < 0 || pos >= o.slots.len() {
                        Ok(
                            raise(
                                s1,
                                ExceptionKind::ArrayIndexOutOfBounds,
                                index_message(o.slots.len(), pos as int),
                            ),
                        )
                    } else {
                        Ok(set_object(s1, h as int, set_slot(o, pos as int, top(s, 0))))
                    }
                }
            },
            _ => Ok(raise_npe(s1)),
        }
    }
}

/// `aastore`: pops an index (top), an array reference, and, once the index is known to be
/// in bounds, the reference to store.
pub open spec fn aastore_spec(s: FrameState) -> Result<FrameState, Fault> {
    if s.stack.len() < 2 {
        Err(Fault::StackUnderflow)
    } else if !(top(s, 0) is Int) || !has_kind(top(s, 1), Kind::Reference) {
        Err(Fault::TypeMismatch)
    } else {
        let pos = int_of(top(s, 0));
        let s1 = pop_n(s, 2);
        match top(s, 1) {
            Slot::Ref(h) => {
                if array_check(s, h) is Some {
                    Err(array_check(s, h)->0)
                } else {
                    let o = s.heap[h as int];
                    if pos < 0 || pos >= o.slots.len() {
                        Ok(
                            raise(
                                s1,
                                ExceptionKind::ArrayIndexOutOfBounds,
                                index_message(o.slots.len(), pos as int),
                            ),
                        )
                    } else if s.stack.len() < 3 {
                        Err(Fault::StackUnderflow)
                    } else if !has_kind(top(s, 2), Kind::Reference) {
                        Err(Fault::TypeMismatch)
                    } else {
                        Ok(set_object(pop_n(s, 3), h as int, set_slot(o, pos as int, top(s, 2))))
                    }
                }
            },
            _ => Ok(raise_npe(s1)),
        }
    }
}

/// `arraylength`.
pub open spec fn array_length_spec(s: FrameState) -> Result<FrameState, Fault> {
    if s.stack.len() < 1 {
        Err(Fault::StackUnderflow)
    } else if !has_kind(top(s, 0), Kind::Reference) {
        Err(Fault::TypeMismatch)
    } else {
        let s1 = pop_n(s, 1);
        match top(s, 0) {
            Slot::Ref(h) => {
                if array_check(s, h) is Some {
                    Err(array_check(s, h)->0)
                } else {
                    Ok(push(s1, Slot::Int(s.heap[h as int].slots.len() as i32)))
                }
            },
            _ => Ok(raise_npe(s1)),
        }
    }
}

// ---------------------------------------------------------------------------------------
// Stack manipulation

/// Pops `n` slots and pushes, in order, the slots that stood at the depths `pattern`.
pub open spec fn shuffle_spec(s: FrameState, n: int, pattern: Seq<usize>) -> Result<
    FrameState,
    Fault,
> {
    if s.stack.len() < n {
        Err(Fault::StackUnderflow)
    } else {
        Ok(
            with_stack(
                s,
                drop_top(s.stack, n) + Seq::new(
                    pattern.len(),
                    |i: int| peek_at(s.stack, pattern[i] as int),
                ),
            ),
        )
    }
}

// ---------------------------------------------------------------------------------------
// Arithmetic

/// Division truncating towards zero.
pub open spec fn trunc_div(x: int, d: int) -> int {
    if x == 0 {
        0
    } else if x > 0 && d > 0 {
        x / d
    } else if x < 0 && d < 0 {
        (-x) / (-d)
    } else if x < 0 {
        -((-x) / d)
    } else {
        -(x / (-d))
    }
}

/// The remainder of division truncating towards zero; it has the sign of `x`.
pub open spec fn trunc_rem(x: int, d: int) -> int {
    if x == 0 {
        0
    } else if x > 0 && d > 0 {
        x % d
    } else if x < 0 && d < 0 {
        -((-x) % (-d))
    } else if x < 0 {
        -((-x) % d)
    } else {
        x % (-d)
    }
}

/// The result of the `int` instruction `op` on `a` (deeper) and `b` (top).
pub open spec fn int_arith(op: u8, a: i32, b: i32) -> i32 {
    if op == opcode::IADD {
        a.wrapping_add(b)
    } else if op == opcode::ISUB {
        a.wrapping_sub(b)
    } else if op == opcode::IMUL {
        a.wrapping_mul(b)
    } else if op == opcode::IAND {
        a & b
    } else if op == opcode::IOR {
        a | b
    } else if op == opcode::IXOR {
        a ^ b
    } else if op == opcode::ISHL {
        a.wrapping_shl((b & 0x1f) as u32)
    } else if op == opcode::ISHR {
        a.wrapping_shr((b & 0x1f) as u32)
    } else if op == opcode::IUSHR {
        ((a as u32) >> ((b & 0x1f) as u32)) as i32
    } else if op == opcode::IDIV {
        if a == i32::MIN && b == -1 {
            i32::MIN
        } else {
            trunc_div(a as int, b as int) as i32
        }
    } else {
        trunc_rem(a as int, b as int) as i32
    }
}

/// The result of the `long` instruction `op` on `a` (deeper) and `b` (top).
pub open spec fn long_arith(op: u8, a: i64, b: i64) -> i64 {
    if op == opcode::LADD {
        a.wrapping_add(b)
    } else if op == opcode::LSUB {
        a.wrapping_sub(b)
    } else if op == opcode::LMUL {
        a.wrapping_mul(b)
    } else if op == opcode::LAND {
        a & b
    } else if op == opcode::LOR {
        a | b
    } else if op == opcode::LXOR {
        a ^ b
    } else if op == opcode::LDIV {
        if a == i64::MIN && b == -1 {
            i64::MIN
        } else {
            trunc_div(a as int, b as int) as i64
        }
    } else {
        trunc_rem(a as int, b as int) as i64
    }
}

/// The result of the `long` shift `op` of `a` by the `int` `b`.
pub open spec fn long_shift(op: u8, a: i64, b: i32) -> i64 {
    if op == opcode::LSHL {
        a.wrapping_shl((b & 0x3f) as u32)
    } else if op == opcode::LSHR {
        a.wrapping_shr((b & 0x3f) as u32)
    } else {
        ((a as u64) >> ((b & 0x3f) as u32)) as i64
    }
}

/// The binary `int` instructions.
pub open spec fn is_int_binop(op: u8) -> bool {
    op == opcode::IADD || op == opcode::ISUB || op == opcode::IMUL || op == opcode::IDIV || op
        == opcode::IREM || op == opcode::ISHL || op == opcode::ISHR || op == opcode::IUSHR || op
        == opcode::IAND || op == opcode::IOR || op == opcode::IXOR
}

/// The binary `long` instructions other than shifts.
pub open spec fn is_long_binop(op: u8) -> bool {
    op == opcode::LADD || op == opcode::LSUB || op == opcode::LMUL || op == opcode::LDIV || op
        == opcode::LREM || op == opcode::LAND || op == opcode::LOR || op == opcode::LXOR
}

pub open spec fn is_division(op: u8) -> bool {
    op == opcode::IDIV || op == opcode::IREM || op == opcode::LDIV || op == opcode::LREM
}

/// A binary `int` instruction: `iadd` .. `ixor`, shifts, `idiv`, `irem`. A division by
/// zero raises an `ArithmeticException`.
pub open spec fn int_binop_spec(s: FrameState, op: u8) -> Result<FrameState, Fault> {
    if s.stack.len() < 2 {
        Err(Fault::StackUnderflow)
    } else if !(top(s, 0) is Int) || !(top(s, 1) is Int) {
        Err(Fault::TypeMismatch)
    } else {
        let b = int_of(top(s, 0));
        let a = int_of(top(s, 1));
        if is_division(op) && b == 0 {
            Ok(raise(pop_n(s, 2), ExceptionKind::Arithmetic, div_zero_message()))
        } else {
            Ok(push(pop_n(s, 2), Slot::Int(int_arith(op, a, b))))
        }
    }
}

/// A binary `long` instruction: `ladd` .. `lxor`, `ldiv`, `lrem`.
pub open spec fn long_binop_spec(s: FrameState, op: u8) -> Result<FrameState, Fault> {
    if s.stack.len() < 2 {
        Err(Fault::StackUnderflow)
    } else if !(top(s, 0) is Long) || !(top(s, 1) is Long) {
        Err(Fault::TypeMismatch)
    } else {
        let b = long_of(top(s, 0));
        let a = long_of(top(s, 1));
        if is_division(op) && b == 0 {
            Ok(raise(pop_n(s, 2), ExceptionKind::Arithmetic, div_zero_message()))
        } else {
            Ok(push(pop_n(s, 2), Slot::Long(long_arith(op, a, b))))
        }
    }
}

/// `lshl`, `lshr`, `lushr`: an `int` shift count on top of a `long`.
pub open spec fn long_shift_spec(s: FrameState, op: u8) -> Result<FrameState, Fault> {
    if s.stack.len() < 2 {
        Err(Fault::StackUnderflow)
    } else if !(top(s, 0) is Int) || !(top(s, 1) is Long) {
        Err(Fault::TypeMismatch)
    } else {
        Ok(
            push(
                pop_n(s, 2),
                Slot::Long(long_shift(op, long_of(top(s, 1)), int_of(top(s, 0)))),
            ),
        )
    }
}

/// The source kind of a conversion or negation.
pub open spec fn unary_source(op: u8) -> Kind {
    if op == opcode::LNEG || op == opcode::L2I {
        Kind::Long
    } else {
        Kind::Int
    }
}

/// The result of `ineg`, `lneg`, `i2l`, `l2i`, `i2b`, `i2c`, `i2s` on `v`.
pub open spec fn unary_result(op: u8, v: Slot) -> Slot {
    if op == opcode::INEG {
        Slot::Int(0i32.wrapping_sub(int_of(v)))
    } else if op == opcode::LNEG {
        Slot::Long(0i64.wrapping_sub(long_of(v)))
    } else if op == opcode::I2L {
        Slot::Long(int_of(v) as i64)
    } else if op == opcode::L2I {
        Slot::Int(long_of(v) as i32)
    } else if op == opcode::I2B {
        Slot::Int(int_of(v) as i8 as i32)
    } else if op == opcode::I2C {
        Slot::Int(int_of(v) as u16 as i32)
    } else {
        Slot::Int(int_of(v) as i16 as i32)
    }
}

pub open spec fn unary_spec(s: FrameState, op: u8) -> Result<FrameState, Fault> {
    if s.stack.len() < 1 {
        Err(Fault::StackUnderflow)
    } else if !has_kind(top(s, 0), unary_source(op)) {
        Err(Fault::TypeMismatch)
    } else {
        Ok(push(pop_n(s, 1), unary_result(op, top(s, 0))))
    }
}

/// `lcmp`: with `v1` the top and `v2` the value below it, pushes -1 when `v1 > v2`, 1 when
/// `v1 < v2`, 0 otherwise.
pub open spec fn lcmp_spec(s: FrameState) -> Result<FrameState, Fault> {
    if s.stack.len() < 2 {
        Err(Fault::StackUnderflow)
    } else if !(top(s, 0) is Long) || !(top(s, 1) is Long) {
        Err(Fault::TypeMismatch)
    } else {
        let v1 = long_of(top(s, 0));
        let v2 = long_of(top(s, 1));
        Ok(
            push(
                pop_n(s, 2),
                Slot::Int(
                    if v1 > v2 {
                        -1i32
                    } else if v1 < v2 {
                        1i32
                    } else {
                        0i32
                    },
                ),
            ),
        )
    }
}

// ---------------------------------------------------------------------------------------
// Branches

/// A branch with the program counter at its two offset bytes: taken, the counter moves to
/// itself plus the offset (unsigned) plus one; not taken, it skips the offset.
pub open spec fn branch_spec(s: FrameState, taken: bool) -> Result<FrameState, Fault> {
    if taken {
        if !readable(s, 2) {
            Err(Fault::CodeOutOfRange)
        } else if s.pc + 1 + u2_at(s) > i32::MAX {
            Err(Fault::PcOverflow)
        } else {
            Ok(with_pc(s, s.pc + 1 + u2_at(s)))
        }
    } else if s.pc + 2 > i32::MAX {
        Err(Fault::PcOverflow)
    } else {
        Ok(advance(s, 2))
    }
}

/// The condition of `ifeq` .. `ifle` on `v`.
pub open spec fn if_cond(op: u8, v: i32) -> bool {
    if op == opcode::IFEQ {
        v == 0
    } else if op == opcode::IFNE {
        v != 0
    } else if op == opcode::IFLT {
        v < 0
    } else if op == opcode::IFGE {
        v >= 0
    } else if op == opcode::IFGT {
        v > 0
    } else {
        v <= 0
    }
}

/// The condition of `if_icmpeq` .. `if_icmple` on `a` (deeper) and `b` (top).
pub open spec fn icmp_cond(op: u8, a: i32, b: i32) -> bool {
    if op == opcode::IF_ICMPEQ {
        a == b
    } else if op == opcode::IF_ICMPNE {
        a != b
    } else if op == opcode::IF_ICMPLT {
        a < b
    } else if op == opcode::IF_ICMPGE {
        a >= b
    } else if op == opcode::IF_ICMPGT {
        a > b
    } else {
        a <= b
    }
}

pub open spec fn if_spec(s: FrameState, op: u8) -> Result<FrameState, Fault> {
    if s.stack.len() < 1 {
        Err(Fault::StackUnderflow)
    } else if !(top(s, 0) is Int) {
        Err(Fault::TypeMismatch)
    } else {
        branch_spec(pop_n(s, 1), if_cond(op, int_of(top(s, 0))))
    }
}

pub open spec fn if_icmp_spec(s: FrameState, op: u8) -> Result<FrameState, Fault> {
    if s.stack.len() < 2 {
        Err(Fault::StackUnderflow)
    } else if !(top(s, 0) is Int) || !(top(s, 1) is Int) {
        Err(Fault::TypeMismatch)
    } else {
        branch_spec(pop_n(s, 2), icmp_cond(op, int_of(top(s, 1)), int_of(top(s, 0))))
    }
}

/// `if_acmpeq` / `if_acmpne`: two references, equal when they are both null or name the
/// same object.
pub open spec fn if_acmp_spec(s: FrameState, op: u8) -> Result<FrameState, Fault> {
    if s.stack.len() < 2 {
        Err(Fault::StackUnderflow)
    } else if !has_kind(top(s, 0), Kind::Reference) || !has_kind(top(s, 1), Kind::Reference) {
        Err(Fault::TypeMismatch)
    } else {
        branch_spec(pop_n(s, 2), (top(s, 0) == top(s, 1)) == (op == opcode::IF_ACMPEQ))
    }
}

/// `ifnull` / `ifnonnull`.
pub open spec fn if_null_spec(s: FrameState, op: u8) -> Result<FrameState, Fault> {
    if s.stack.len() < 1 {
        Err(Fault::StackUnderflow)
    } else if !has_kind(top(s, 0), Kind::Reference) {
        Err(Fault::TypeMismatch)
    } else {
        branch_spec(pop_n(s, 1), (top(s, 0) is Null) == (op == opcode::IFNULL))
    }
}

// ---------------------------------------------------------------------------------------
// Returns

/// `ireturn` .. `areturn`: pops a value of kind `k` and makes it the returned value.
pub open spec fn return_spec(s: FrameState, k: Kind) -> Result<FrameState, Fault> {
    if s.stack.len() < 1 {
        Err(Fault::StackUnderflow)
    } else if !has_kind(top(s, 0), k) {
        Err(Fault::TypeMismatch)
    } else {
        Ok(with_return(pop_n(s, 1), top(s, 0)))
    }
}

// ---------------------------------------------------------------------------------------
// Fields and objects

/// The field that constant pool entry `idx` names, if it is a field reference to a field
/// whose staticness is `is_static`.
pub open spec fn resolve_field(s: FrameState, idx: int, is_static: bool) -> Option<FieldInfo> {
    if 0 <= idx < s.cp.len() && s.cp[idx] is FieldRef {
        let f = s.cp[idx]->FieldRef_0;
        if f < s.fields.len() && s.fields[f as int].is_static == is_static {
            Some(s.fields[f as int])
        } else {
            None
        }
    } else {
        None
    }
}

/// `getstatic`: pushes the static field named by the two operand bytes.
pub open spec fn get_static_spec(s: FrameState) -> Result<FrameState, Fault> {
    if !readable(s, 2) {
        Err(Fault::CodeOutOfRange)
    } else {
        let s1 = advance(s, 2);
        match resolve_field(s, u2_at(s), true) {
            None => Err(Fault::BadField),
            Some(f) => {
                if f.index >= s.statics.len() || kind_of_type(f.value_type) is None {
                    Err(Fault::BadField)
                } else if !has_kind(s.statics[f.index as int], kind_of_type(f.value_type)->0) {
                    Err(Fault::TypeMismatch)
                } else {
                    Ok(push(s1, s.statics[f.index as int]))
                }
            },
        }
    }
}

/// `putstatic`: pops a value of the field's kind into the static field named by the two
/// operand bytes.
pub open spec fn put_static_spec(s: FrameState) -> Result<FrameState, Fault> {
    if !readable(s, 2) {
        Err(Fault::CodeOutOfRange)
    } else {
        let s1 = advance(s, 2);
        match resolve_field(s, u2_at(s), true) {
            None => Err(Fault::BadField),
            Some(f) => {
                if kind_of_type(f.value_type) is None {
                    Err(Fault::BadField)
                } else if s.stack.len() < 1 {
                    Err(Fault::StackUnderflow)
                } else if !has_kind(top(s, 0), kind_of_type(f.value_type)->0) {
                    Err(Fault::TypeMismatch)
                } else if f.index >= s.statics.len() {
                    Err(Fault::BadField)
                } else {
                    Ok(
                        FrameState {
                            statics: s.statics.update(f.index as int, top(s, 0)),
                            ..pop_n(s1, 1)
                        },
                    )
                }
            },
        }
    }
}

/// Why the reference `h` does not name an instance with a slot for field `f`, if it does
/// not.
pub open spec fn instance_check(s: FrameState, h: usize, f: FieldInfo) -> Option<Fault> {
    if h >= s.heap.len() {
        Some(Fault::DanglingReference)
    } else if !(s.heap[h as int].kind is Instance) {
        Some(Fault::TypeMismatch)
    } else if f.index >= s.heap[h as int].slots.len() {
        Some(Fault::BadField)
    } else {
        None
    }
}

/// `getfield`: pops an object reference and reads the field named by the two operand
/// bytes; the value read is not pushed.
pub open spec fn get_field_spec(s: FrameState) -> Result<FrameState, Fault> {
    if !readable(s, 2) {
        Err(Fault::CodeOutOfRange)
    } else if s.stack.len() < 1 {
        Err(Fault::StackUnderflow)
    } else if !has_kind(top(s, 0), Kind::Reference) {
        Err(Fault::TypeMismatch)
    } else {
        let s1 = pop_n(advance(s, 2), 1);
        match top(s, 0) {
            Slot::Ref(h) => {
                match resolve_field(s, u2_at(s), false) {
                    None => Err(Fault::BadField),
                    Some(f) => {
                        if instance_check(s, h, f) is Some {
                            Err(instance_check(s, h, f)->0)
                        } else {
                            Ok(s1)
                        }
                    },
                }
            },
            _ => Ok(raise_npe(s1)),
        }
    }
}

/// `putfield`: pops a value of the field's kind and an object reference, and stores the
/// value into the field named by the two operand bytes.
pub open spec fn put_field_spec(s: FrameState) -> Result<FrameState, Fault> {
    if !readable(s, 2) {
        Err(Fault::CodeOutOfRange)
    } else {
        match resolve_field(s, u2_at(s), false) {
            None => Err(Fault::BadField),
            Some(f) => {
                if kind_of_type(f.value_type) is None {
                    Err(Fault::BadField)
                } else if s.stack.len() < 1 {
                    Err(Fault::StackUnderflow)
                } else if !has_kind(top(s, 0), kind_of_type(f.value_type)->0) {
                    Err(Fault::TypeMismatch)
                } else if s.stack.len() < 2 {
                    Err(Fault::StackUnderflow)
                } else if !has_kind(top(s, 1), Kind::Reference) {
                    Err(Fault::TypeMismatch)
                } else {
                    let s1 = pop_n(advance(s, 2), 2);
                    match top(s, 1) {
                        Slot::Ref(h) => {
                            if instance_check(s, h, f) is Some {
                                Err(instance_check(s, h, f)->0)
                            } else {
                                Ok(
                                    set_object(
                                        s1,
                                        h as int,
                                        set_slot(s.heap[h as int], f.index as int, top(s, 0)),
                                    ),
                                )
                            }
                        },
                        _ => Ok(raise_npe(s1)),
                    }
                }
            },
        }
    }
}

/// The class that constant pool entry `idx` names, if it is a class reference to an
/// instance class.
pub open spec fn resolve_class(s: FrameState, idx: int) -> Option<int> {
    if 0 <= idx < s.cp.len() && s.cp[idx] is Class {
        let c = s.cp[idx]->Class_0;
        if c < s.classes.len() && s.classes[c as int].kind == ClassKind::InstanceClass {
            Some(c as int)
        } else {
            None
        }
    } else {
        None
    }
}

/// A fresh instance of class `c`, its fields holding their types' default values.
pub open spec fn new_instance(s: FrameState, c: int) -> ObjectView {
    ObjectView {
        kind: ObjKind::Instance(c as usize),
        slots: Seq::new(
            s.classes[c].field_types.len(),
            |i: int| default_value(s.classes[c].field_types[i]),
        ),
        bytes: Seq::empty(),
        lock: 0,
    }
}

/// `new`: initializes the class named by the two operand bytes and pushes a new instance.
pub open spec fn new_spec(s: FrameState) -> Result<FrameState, Fault> {
    if !readable(s, 2) {
        Err(Fault::CodeOutOfRange)
    } else {
        match resolve_class(s, u2_at(s)) {
            None => Err(Fault::BadClass),
            Some(c) => {
                let cl = s.classes[c];
                let s1 = FrameState {
                    classes: s.classes.update(c, ClassView { initialized: true, ..cl }),
                    ..advance(s, 2)
                };
                Ok(alloc_push(s1, new_instance(s, c)))
            },
        }
    }
}

/// `athrow`.
pub open spec fn athrow_spec(s: FrameState) -> Result<FrameState, Fault> {
    if s.stack.len() < 1 {
        Err(Fault::StackUnderflow)
    } else if !has_kind(top(s, 0), Kind::Reference) {
        Err(Fault::TypeMismatch)
    } else {
        match top(s, 0) {
            Slot::Ref(h) => {
                if h >= s.heap.len() {
                    Err(Fault::DanglingReference)
                } else {
                    Ok(throw_ref(pop_n(s, 1), h as int))
                }
            },
            _ => Ok(raise_npe(pop_n(s, 1))),
        }
    }
}

/// `monitorenter` (`enter`) and `monitorexit`: count the object's monitor up or down.
pub open spec fn monitor_spec(s: FrameState, enter: bool) -> Result<FrameState, Fault> {
    if s.stack.len() < 1 {
        Err(Fault::StackUnderflow)
    } else if !has_kind(top(s, 0), Kind::Reference) {
        Err(Fault::TypeMismatch)
    } else {
        match top(s, 0) {
            Slot::Ref(h) => {
                if h >= s.heap.len() {
                    Err(Fault::DanglingReference)
                } else {
                    let o = s.heap[h as int];
                    if enter && o.lock == u64::MAX || !enter && o.lock == 0 {
                        Err(Fault::MonitorState)
                    } else {
                        let lock = if enter {
                            (o.lock + 1) as u64
                        } else {
                            (o.lock - 1) as u64
                        };
                        Ok(set_object(pop_n(s, 1), h as int, ObjectView { lock, ..o }))
                    }
                }
            },
            _ => Ok(raise_npe(pop_n(s, 1))),
        }
    }
}

/// `other_wise`: the opcode before the program counter is not one the interpreter knows.
pub open spec fn other_wise_spec(s: FrameState) -> Result<FrameState, Fault> {
    if 1 <= s.pc <= s.code.len() {
        Err(Fault::UndefinedOpcode(s.code[s.pc - 1]))
    } else {
        Err(Fault::CodeOutOfRange)
    }
}

} // verus!
