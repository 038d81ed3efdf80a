//! The meaning of each opcode, and of running the interpreter loop.

use vstd::prelude::*;
use crate::value::{Slot, Kind, Fault};
use crate::opcode;
use crate::state::{
    FrameState, Stop, push, advance, with_return, bipush_spec, sipush_spec, ldc_spec,
    load_spec, load_op_spec, store_spec, store_op_spec, iinc_spec, array_load_spec,
    array_store_spec, aastore_spec, array_length_spec, shuffle_spec, int_binop_spec,
    long_binop_spec, long_shift_spec, unary_spec, lcmp_spec, branch_spec, if_spec,
    if_icmp_spec, if_acmp_spec, if_null_spec, return_spec, get_static_spec, put_static_spec,
    get_field_spec, put_field_spec, new_spec, athrow_spec, monitor_spec,
};

verus! {

/// The kinds of the typed load, store, array and return families, in opcode order.
pub open spec fn kind_at(i: int) -> Kind {
    if i == 0 {
        Kind::Int
    } else if i == 1 {
        Kind::Long
    } else if i == 2 {
        Kind::Float
    } else if i == 3 {
        Kind::Double
    } else {
        Kind::Reference
    }
}

/// The instructions that compute on `float` or `double` values; the interpreter loop
/// leaves them to its caller.
pub open spec fn is_float_op(op: u8) -> bool {
    op == opcode::FADD || op == opcode::DADD || op == opcode::FSUB || op == opcode::DSUB
        || op == opcode::FMUL || op == opcode::DMUL || op == opcode::FDIV || op == opcode::DDIV
        || (opcode::I2F <= op <= opcode::I2D) || (opcode::L2F <= op <= opcode::D2F) || (opcode::FCMPL <= op <= opcode::DCMPG)
}

/// The return instructions, after which the interpreter loop stops.
pub open spec fn is_return_op(op: u8) -> bool {
    opcode::IRETURN <= op <= opcode::RETURN
}

/// The deprecated instructions, which are refused.
pub open spec fn is_deprecated_op(op: u8) -> bool {
    op == opcode::FREM || op == opcode::DREM || op == opcode::FNEG || op == opcode::DNEG
        || op == opcode::JSR || op == opcode::RET || op == opcode::WIDE || op == opcode::GOTO_W
        || op == opcode::JSR_W
}

/// The instructions that do nothing: `nop`, the unimplemented ones, and the opcodes
/// above `jsr_w`.
pub open spec fn is_inert_op(op: u8) -> bool {
    op == opcode::NOP || op == opcode::TABLESWITCH || op == opcode::LOOKUPSWITCH || (
    opcode::INVOKEVIRTUAL <= op <= opcode::INVOKEDYNAMIC) || op == opcode::NEWARRAY || op
        == opcode::ANEWARRAY || op == opcode::CHECKCAST || op == opcode::INSTANCEOF || op
        == opcode::MULTIANEWARRAY || op > opcode::JSR_W
}

/// The pattern of the stack instructions `pop` .. `swap`: how many slots they pop and the
/// depths of the slots they push back.
pub open spec fn shuffle_shape(op: u8) -> (int, Seq<usize>) {
    if op == opcode::POP {
        (1, seq![])
    } else if op == opcode::POP2 {
        (2, seq![])
    } else if op == opcode::DUP {
        (1, seq![0usize, 0])
    } else if op == opcode::DUP_X1 {
        (2, seq![0usize, 1, 0])
    } else if op == opcode::DUP_X2 {
        (3, seq![0usize, 2, 1, 0])
    } else if op == opcode::DUP2 {
        (2, seq![1usize, 0, 1, 0])
    } else if op == opcode::DUP2_X1 {
        (3, seq![1usize, 0, 2, 1, 0])
    } else if op == opcode::DUP2_X2 {
        (4, seq![1usize, 0, 3, 2, 1, 0])
    } else {
        (2, seq![0usize, 1])
    }
}

/// The constant an instruction of `aconst_null` .. `dconst_1` pushes (floating-point
/// constants as their bit patterns).
pub open spec fn const_value(op: u8) -> Slot {
    if op == opcode::ACONST_NULL {
        Slot::Null
    } else if op <= opcode::ICONST_5 {
        Slot::Int((op - 3) as i32)
    } else if op <= opcode::LCONST_1 {
        Slot::Long((op - 9) as i64)
    } else if op == opcode::FCONST_0 {
        Slot::Float(0)
    } else if op == opcode::FCONST_1 {
        Slot::Float(0x3f80_0000)
    } else if op == opcode::FCONST_2 {
        Slot::Float(0x4000_0000)
    } else if op == opcode::DCONST_0 {
        Slot::Double(0)
    } else {
        Slot::Double(0x3ff0_0000_0000_0000)
    }
}

/// The meaning of the instruction `op` other than a floating-point one, on a state whose
/// program counter is past the opcode.
pub open spec fn instr_spec(s: FrameState, op: u8) -> Result<FrameState, Fault> {
    if is_inert_op(op) || is_float_op(op) {
        Ok(s)
    } else if is_deprecated_op(op) {
        Err(Fault::Deprecated(op))
    } else if op <= opcode::DCONST_1 {
        Ok(push(s, const_value(op)))
    } else if op == opcode::BIPUSH {
        bipush_spec(s)
    } else if op == opcode::SIPUSH {
        sipush_spec(s)
    } else if op == opcode::LDC {
        ldc_spec(s, 1)
    } else if op <= opcode::LDC2_W {
        ldc_spec(s, 2)
    } else if op <= opcode::ALOAD {
        load_op_spec(s, kind_at(op - opcode::ILOAD))
    } else if op <= opcode::ALOAD_3 {
        load_spec(s, kind_at((op - opcode::ILOAD_0) / 4), (op - opcode::ILOAD_0) % 4)
    } else if op <= opcode::AALOAD {
        array_load_spec(
            s,
            if op == opcode::AALOAD {
                Kind::Any
            } else {
                kind_at(op - opcode::IALOAD)
            },
        )
    } else if op <= opcode::SALOAD {
        array_load_spec(s, Kind::Int)
    } else if op <= opcode::ASTORE {
        store_op_spec(s, kind_at(op - opcode::ISTORE))
    } else if op <= opcode::ASTORE_3 {
        store_spec(s, kind_at((op - opcode::ISTORE_0) / 4), (op - opcode::ISTORE_0) % 4)
    } else if op <= opcode::DASTORE {
        array_store_spec(s, kind_at(op - opcode::IASTORE))
    } else if op == opcode::AASTORE {
        aastore_spec(s)
    } else if op <= opcode::SASTORE {
        array_store_spec(s, Kind::Int)
    } else if op <= opcode::SWAP {
        shuffle_spec(s, shuffle_shape(op).0, shuffle_shape(op).1)
    } else if op == opcode::INEG || op == opcode::LNEG {
        unary_spec(s, op)
    } else if op == opcode::LSHL || op == opcode::LSHR || op == opcode::LUSHR {
        long_shift_spec(s, op)
    } else if op <= opcode::LXOR && op % 2 == 0 {
        int_binop_spec(s, op)
    } else if op <= opcode::LXOR {
        long_binop_spec(s, op)
    } else if op == opcode::IINC {
        iinc_spec(s)
    } else if op <= opcode::I2S {
        unary_spec(s, op)
    } else if op == opcode::LCMP {
        lcmp_spec(s)
    } else if op <= opcode::IFLE {
        if_spec(s, op)
    } else if op <= opcode::IF_ICMPLE {
        if_icmp_spec(s, op)
    } else if op <= opcode::IF_ACMPNE {
        if_acmp_spec(s, op)
    } else if op == opcode::GOTO {
        branch_spec(s, true)
    } else if op <= opcode::ARETURN {
        return_spec(s, kind_at(op - opcode::IRETURN))
    } else if op == opcode::RETURN {
        Ok(with_return(s, Slot::Null))
    } else if op == opcode::GETSTATIC {
        get_static_spec(s)
    } else if op == opcode::PUTSTATIC {
        put_static_spec(s)
    } else if op == opcode::GETFIELD {
        get_field_spec(s)
    } else if op == opcode::PUTFIELD {
        put_field_spec(s)
    } else if op == opcode::NEW {
        new_spec(s)
    } else if op == opcode::ARRAYLENGTH {
        array_length_spec(s)
    } else if op == opcode::ATHROW {
        athrow_spec(s)
    } else if op == opcode::MONITORENTER {
        monitor_spec(s, true)
    } else if op == opcode::MONITOREXIT {
        monitor_spec(s, false)
    } else {
        if_null_spec(s, op)
    }
}

/// The opcode at the program counter, if the counter lies in the code.
pub open spec fn fetch(s: FrameState) -> Option<u8> {
    if 0 <= s.pc < s.code.len() && s.pc < i32::MAX {
        Some(s.code[s.pc as int])
    } else {
        None
    }
}

/// The state once an opcode fetch has moved the program counter on.
pub open spec fn after_fetch(s: FrameState) -> FrameState {
    if s.pc < i32::MAX {
        advance(s, 1)
    } else {
        s
    }
}

/// Runs at most `fuel` instructions: how the run stops, and the state it leaves.
pub open spec fn run_spec(s: FrameState, fuel: nat) -> (Result<Stop, Fault>, FrameState)
    decreases fuel,
{
    if fuel == 0 {
        (Ok(Stop::OutOfFuel), s)
    } else {
        match fetch(s) {
            None => (Ok(Stop::CodeEnd), after_fetch(s)),
            Some(op) => {
                let s1 = advance(s, 1);
                if is_float_op(op) {
                    (Ok(Stop::FloatOp(op)), s1)
                } else {
                    match instr_spec(s1, op) {
                        Err(e) => (Err(e), s1),
                        Ok(s2) => {
                            if is_return_op(op) {
                                (Ok(Stop::Returned), s2)
                            } else {
                                run_spec(s2, (fuel - 1) as nat)
                            }
                        },
                    }
                }
            },
        }
    }
}

} // verus!
