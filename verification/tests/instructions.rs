use lib::frame::Frame;
use lib::model::{
    Catch, Class, ClassInfo, ClassKind, Code, Constant, ExceptionHandler, FieldInfo, HeapObject,
    Method, MethodId, ObjKind, Runtime,
};
use lib::value::{ExceptionKind, Fault, Slot, ValueType};

fn runtime() -> Runtime {
    Runtime { heap: Vec::new(), statics: Vec::new(), classes: Vec::new(), fields: Vec::new() }
}

fn method(code: Vec<u8>, cp: Vec<Constant>, handlers: Vec<ExceptionHandler>) -> MethodId {
    MethodId {
        method: Method {
            class: Class { cp },
            code: Code { max_locals: 4, max_stack: 8, code, handlers },
        },
    }
}

fn frame(code: Vec<u8>) -> Frame {
    Frame::new(runtime(), method(code, Vec::new(), Vec::new()))
}

fn frame_with(rt: Runtime, code: Vec<u8>, cp: Vec<Constant>) -> Frame {
    Frame::new(rt, method(code, cp, Vec::new()))
}

fn int_array(elems: Vec<i32>) -> HeapObject {
    HeapObject {
        kind: ObjKind::Array,
        slots: elems.into_iter().map(Slot::Int).collect(),
        bytes: Vec::new(),
        lock: 0,
    }
}

#[test]
fn new_frame_starts_empty() {
    let f = frame(vec![0, 1, 2]);
    assert_eq!(f.pc, 0);
    assert_eq!(f.return_v, None);
    assert!(f.stack_slots().is_empty());
    assert_eq!(f.local.len(), 4);
    assert_eq!(f.local.get(0), Some(Slot::Empty));
}

#[test]
fn constants_are_pushed() {
    let mut f = frame(vec![]);
    f.aconst_null().unwrap();
    f.iconst_m1().unwrap();
    f.iconst_5().unwrap();
    f.lconst_1().unwrap();
    f.fconst_2().unwrap();
    f.dconst_1().unwrap();
    assert_eq!(
        f.stack_slots(),
        vec![
            Slot::Null,
            Slot::Int(-1),
            Slot::Int(5),
            Slot::Long(1),
            Slot::Float(2.0f32.to_bits()),
            Slot::Double(1.0f64.to_bits()),
        ]
    );
}

#[test]
fn bipush_and_sipush_read_unsigned_operands() {
    let mut f = frame(vec![0xff, 0x12, 0x34]);
    f.bipush().unwrap();
    assert_eq!(f.pc, 1);
    f.sipush().unwrap();
    assert_eq!(f.pc, 3);
    assert_eq!(f.stack_slots(), vec![Slot::Int(255), Slot::Int(0x1234)]);
}

#[test]
fn truncated_operand_is_refused_and_frame_kept() {
    let mut f = frame(vec![0x12]);
    assert_eq!(f.sipush(), Err(Fault::CodeOutOfRange));
    assert_eq!(f.pc, 0);
    assert!(f.stack_slots().is_empty());
}

#[test]
fn ldc_loads_constants() {
    let cp = vec![
        Constant::Other,
        Constant::Integer(7),
        Constant::Utf8(b"hi".to_vec()),
        Constant::String(2),
        Constant::Long(-3),
        Constant::Class(0),
    ];
    let mut f = frame_with(runtime(), vec![1, 3, 0, 4, 5], cp);
    f.ldc().unwrap();
    f.ldc().unwrap();
    f.ldc2_w().unwrap();
    assert_eq!(f.stack_slots(), vec![Slot::Int(7), Slot::Ref(0), Slot::Long(-3)]);
    assert_eq!(f.runtime().heap[0].kind, ObjKind::Str);
    assert_eq!(f.runtime().heap[0].bytes, b"hi".to_vec());
    assert_eq!(f.ldc(), Err(Fault::UnsupportedConstant));
    assert_eq!(f.pc, 4);
}

#[test]
fn ldc_of_bad_entry_is_refused() {
    let cp = vec![Constant::Other, Constant::String(0)];
    let mut f = frame_with(runtime(), vec![0, 1, 9], cp);
    assert_eq!(f.ldc(), Err(Fault::BadConstant));
    assert_eq!(f.pc, 0);
    f.pc = 1;
    assert_eq!(f.ldc(), Err(Fault::BadConstant));
    f.pc = 2;
    assert_eq!(f.ldc(), Err(Fault::BadConstant));
}

#[test]
fn store_then_load_round_trips() {
    let mut f = frame(vec![2]);
    f.push_slot(Slot::Int(42));
    f.istore_1().unwrap();
    assert!(f.stack_slots().is_empty());
    assert_eq!(f.local.get(1), Some(Slot::Int(42)));
    f.iload_1().unwrap();
    assert_eq!(f.stack_slots(), vec![Slot::Int(42)]);
    f.istore().unwrap();
    assert_eq!(f.local.get(2), Some(Slot::Int(42)));
    assert_eq!(f.pc, 1);
}

#[test]
fn load_checks_kind_and_index() {
    let mut f = frame(vec![9]);
    assert_eq!(f.iload_0(), Err(Fault::TypeMismatch));
    f.push_slot(Slot::Long(1));
    f.lstore_3().unwrap();
    assert_eq!(f.iload_3(), Err(Fault::TypeMismatch));
    f.lload_3().unwrap();
    assert_eq!(f.iload(), Err(Fault::LocalOutOfRange));
    assert_eq!(f.istore_0(), Err(Fault::TypeMismatch));
    assert_eq!(f.stack_slots(), vec![Slot::Long(1)]);
}

#[test]
fn iinc_adds_unsigned_byte_wrapping() {
    let mut f = frame(vec![0, 5, 0, 0xff]);
    f.push_slot(Slot::Int(i32::MAX));
    f.istore_0().unwrap();
    f.iinc().unwrap();
    assert_eq!(f.local.get(0), Some(Slot::Int(i32::MIN + 4)));
    f.iinc().unwrap();
    assert_eq!(f.local.get(0), Some(Slot::Int(i32::MIN + 4 + 255)));
    assert_eq!(f.pc, 4);
}

#[test]
fn array_load_and_store() {
    let mut rt = runtime();
    rt.heap.push(int_array(vec![10, 20, 30]));
    let mut f = frame_with(rt, vec![], Vec::new());
    f.push_slot(Slot::Ref(0));
    f.push_slot(Slot::Int(1));
    f.push_slot(Slot::Int(99));
    f.iastore().unwrap();
    assert_eq!(f.runtime().heap[0].slots[1], Slot::Int(99));
    f.push_slot(Slot::Ref(0));
    f.push_slot(Slot::Int(1));
    f.iaload().unwrap();
    assert_eq!(f.stack_slots(), vec![Slot::Int(99)]);
    f.push_slot(Slot::Ref(0));
    f.array_length().unwrap();
    assert_eq!(f.stack_slots(), vec![Slot::Int(99), Slot::Int(3)]);
}

#[test]
fn array_index_out_of_bounds_is_raised() {
    let mut rt = runtime();
    rt.heap.push(int_array(vec![1, 2]));
    let mut f = frame_with(rt, vec![], Vec::new());
    f.push_slot(Slot::Ref(0));
    f.push_slot(Slot::Int(-1));
    f.iaload().unwrap();
    assert!(f.stack_slots().is_empty());
    assert_eq!(f.return_v, Some(Slot::Ref(1)));
    let exc = &f.runtime().heap[1];
    assert_eq!(exc.kind, ObjKind::Throwable(ExceptionKind::ArrayIndexOutOfBounds));
    assert_eq!(exc.bytes, b"length is 2, but index is -1".to_vec());
}

#[test]
fn null_array_raises_null_pointer() {
    let mut f = frame(vec![]);
    f.push_slot(Slot::Null);
    f.push_slot(Slot::Int(0));
    f.push_slot(Slot::Int(5));
    f.iastore().unwrap();
    assert_eq!(f.return_v, Some(Slot::Ref(0)));
    assert_eq!(f.runtime().heap[0].kind, ObjKind::Throwable(ExceptionKind::NullPointer));
    assert!(f.runtime().heap[0].bytes.is_empty());
}

#[test]
fn array_faults_leave_frame() {
    let mut rt = runtime();
    rt.heap.push(HeapObject { kind: ObjKind::Str, slots: Vec::new(), bytes: Vec::new(), lock: 0 });
    let mut f = frame_with(rt, vec![], Vec::new());
    assert_eq!(f.iaload(), Err(Fault::StackUnderflow));
    f.push_slot(Slot::Ref(0));
    f.push_slot(Slot::Int(0));
    assert_eq!(f.iaload(), Err(Fault::TypeMismatch));
    f.pop_slot();
    f.pop_slot();
    f.push_slot(Slot::Ref(7));
    f.push_slot(Slot::Int(0));
    assert_eq!(f.iaload(), Err(Fault::DanglingReference));
    assert_eq!(f.stack_slots(), vec![Slot::Ref(7), Slot::Int(0)]);
}

#[test]
fn aastore_pops_index_then_array_then_value() {
    let mut rt = runtime();
    rt.heap.push(HeapObject {
        kind: ObjKind::Array,
        slots: vec![Slot::Null, Slot::Null],
        bytes: Vec::new(),
        lock: 0,
    });
    let mut f = frame_with(rt, vec![], Vec::new());
    f.push_slot(Slot::Ref(0));
    f.push_slot(Slot::Ref(0));
    f.push_slot(Slot::Int(1));
    f.aastore().unwrap();
    assert!(f.stack_slots().is_empty());
    assert_eq!(f.runtime().heap[0].slots[1], Slot::Ref(0));
    f.push_slot(Slot::Ref(0));
    f.push_slot(Slot::Int(1));
    f.aaload().unwrap();
    assert_eq!(f.stack_slots(), vec![Slot::Ref(0)]);
}

#[test]
fn stack_shuffles() {
    let mut f = frame(vec![]);
    for i in 1..=4 {
        f.push_slot(Slot::Int(i));
    }
    f.dup2_x2().unwrap();
    let v: Vec<Slot> = [3, 4, 1, 2, 3, 4].iter().map(|&i| Slot::Int(i)).collect();
    assert_eq!(f.stack_slots(), v);
    f.swap().unwrap();
    f.pop2().unwrap();
    f.dup_x1().unwrap();
    let v: Vec<Slot> = [3, 4, 2, 1, 2].iter().map(|&i| Slot::Int(i)).collect();
    assert_eq!(f.stack_slots(), v);
    f.pop().unwrap();
    f.dup_x2().unwrap();
    f.dup().unwrap();
    f.dup2().unwrap();
    f.dup2_x1().unwrap();
    let v: Vec<Slot> = [3, 1, 4, 2, 1, 1, 1, 1, 1, 1].iter().map(|&i| Slot::Int(i)).collect();
    assert_eq!(f.stack_slots(), v);
    let mut g = frame(vec![]);
    assert_eq!(g.pop(), Err(Fault::StackUnderflow));
    g.push_slot(Slot::Null);
    assert_eq!(g.swap(), Err(Fault::StackUnderflow));
}

#[test]
fn int_arithmetic_wraps() {
    let mut f = frame(vec![]);
    f.push_slot(Slot::Int(i32::MAX));
    f.iconst_1().unwrap();
    f.iadd().unwrap();
    assert_eq!(f.stack_slots(), vec![Slot::Int(i32::MIN)]);
    f.iconst_1().unwrap();
    f.isub().unwrap();
    assert_eq!(f.stack_slots(), vec![Slot::Int(i32::MAX)]);
    f.iconst_2().unwrap();
    f.imul().unwrap();
    assert_eq!(f.stack_slots(), vec![Slot::Int(-2)]);
    f.ineg().unwrap();
    assert_eq!(f.stack_slots(), vec![Slot::Int(2)]);
    f.push_slot(Slot::Int(7));
    f.ixor().unwrap();
    f.push_slot(Slot::Int(12));
    f.iand().unwrap();
    f.push_slot(Slot::Int(1));
    f.ior().unwrap();
    assert_eq!(f.stack_slots(), vec![Slot::Int(5)]);
}

#[test]
fn division_truncates_and_wraps() {
    let mut f = frame(vec![]);
    f.push_slot(Slot::Int(-7));
    f.push_slot(Slot::Int(2));
    f.idiv().unwrap();
    f.push_slot(Slot::Int(-7));
    f.push_slot(Slot::Int(2));
    f.irem().unwrap();
    f.push_slot(Slot::Int(i32::MIN));
    f.iconst_m1().unwrap();
    f.idiv().unwrap();
    f.push_slot(Slot::Int(i32::MIN));
    f.iconst_m1().unwrap();
    f.irem().unwrap();
    assert_eq!(
        f.stack_slots(),
        vec![Slot::Int(-3), Slot::Int(-1), Slot::Int(i32::MIN), Slot::Int(0)]
    );
    let mut g = frame(vec![]);
    g.push_slot(Slot::Long(7));
    g.push_slot(Slot::Long(-2));
    g.lrem().unwrap();
    g.push_slot(Slot::Long(i64::MIN));
    g.push_slot(Slot::Long(-1));
    g.ldiv().unwrap();
    assert_eq!(g.stack_slots(), vec![Slot::Long(1), Slot::Long(i64::MIN)]);
}

#[test]
fn division_by_zero_raises_arithmetic() {
    let mut f = frame(vec![]);
    f.push_slot(Slot::Long(1));
    f.push_slot(Slot::Long(0));
    f.ldiv().unwrap();
    assert!(f.stack_slots().is_empty());
    assert_eq!(f.return_v, Some(Slot::Ref(0)));
    let exc = &f.runtime().heap[0];
    assert_eq!(exc.kind, ObjKind::Throwable(ExceptionKind::Arithmetic));
    assert_eq!(exc.bytes, b"divide by zero".to_vec());
}

#[test]
fn shifts_mask_their_count() {
    let mut f = frame(vec![]);
    f.push_slot(Slot::Int(1));
    f.push_slot(Slot::Int(33));
    f.ishl().unwrap();
    f.push_slot(Slot::Int(-16));
    f.push_slot(Slot::Int(2));
    f.ishr().unwrap();
    f.push_slot(Slot::Int(-16));
    f.push_slot(Slot::Int(28));
    f.iushr().unwrap();
    f.push_slot(Slot::Int(-1));
    f.push_slot(Slot::Int(0));
    f.iushr().unwrap();
    assert_eq!(f.stack_slots(), vec![Slot::Int(2), Slot::Int(-4), Slot::Int(15), Slot::Int(-1)]);
    let mut g = frame(vec![]);
    g.push_slot(Slot::Long(-1));
    g.push_slot(Slot::Int(60));
    g.lushr().unwrap();
    g.push_slot(Slot::Long(3));
    g.push_slot(Slot::Int(65));
    g.lshl().unwrap();
    g.push_slot(Slot::Long(-8));
    g.push_slot(Slot::Int(1));
    g.lshr().unwrap();
    assert_eq!(g.stack_slots(), vec![Slot::Long(15), Slot::Long(6), Slot::Long(-4)]);
}

#[test]
fn long_arithmetic() {
    let mut f = frame(vec![]);
    f.push_slot(Slot::Long(i64::MAX));
    f.lconst_1().unwrap();
    f.ladd().unwrap();
    f.lneg().unwrap();
    assert_eq!(f.stack_slots(), vec![Slot::Long(i64::MIN)]);
    f.push_slot(Slot::Long(5));
    f.lsub().unwrap();
    f.push_slot(Slot::Long(2));
    f.lmul().unwrap();
    assert_eq!(f.stack_slots(), vec![Slot::Long(-10)]);
    f.push_slot(Slot::Long(6));
    f.land().unwrap();
    f.push_slot(Slot::Long(1));
    f.lor().unwrap();
    f.push_slot(Slot::Long(3));
    f.lxor().unwrap();
    assert_eq!(f.stack_slots(), vec![Slot::Long(4)]);
}

#[test]
fn conversions() {
    let mut f = frame(vec![]);
    f.push_slot(Slot::Int(0x1_80));
    f.i2b().unwrap();
    f.push_slot(Slot::Int(-1));
    f.i2c().unwrap();
    f.push_slot(Slot::Int(0x1_8000));
    f.i2s().unwrap();
    f.push_slot(Slot::Int(-5));
    f.i2l().unwrap();
    f.push_slot(Slot::Long(0x1_0000_0007));
    f.l2i().unwrap();
    assert_eq!(
        f.stack_slots(),
        vec![Slot::Int(-128), Slot::Int(65535), Slot::Int(-32768), Slot::Long(-5), Slot::Int(7)]
    );
}

#[test]
fn lcmp_signs() {
    let mut f = frame(vec![]);
    f.push_slot(Slot::Long(1));
    f.push_slot(Slot::Long(2));
    f.lcmp().unwrap();
    f.push_slot(Slot::Long(2));
    f.push_slot(Slot::Long(1));
    f.lcmp().unwrap();
    f.push_slot(Slot::Long(2));
    f.push_slot(Slot::Long(2));
    f.lcmp().unwrap();
    assert_eq!(f.stack_slots(), vec![Slot::Int(-1), Slot::Int(1), Slot::Int(0)]);
}

#[test]
fn branches_move_forward_by_unsigned_offset() {
    // ifeq at pc 0 (opcode already consumed: pc 1), offset 0x0005
    let mut f = frame(vec![0x99, 0x00, 0x05]);
    f.pc = 1;
    f.iconst_0().unwrap();
    f.ifeq().unwrap();
    assert_eq!(f.pc, 7);
    let mut g = frame(vec![0x99, 0x00, 0x05]);
    g.pc = 1;
    g.iconst_1().unwrap();
    g.ifeq().unwrap();
    assert_eq!(g.pc, 3);
    let mut h = frame(vec![0xa7, 0xff, 0xff]);
    h.pc = 1;
    h.goto().unwrap();
    assert_eq!(h.pc, 1 + 1 + 0xffff);
}

#[test]
fn compare_branches() {
    let mut f = frame(vec![0, 1, 0, 1, 0, 1, 0, 1]);
    f.push_slot(Slot::Int(1));
    f.push_slot(Slot::Int(2));
    f.if_icmplt().unwrap();
    assert_eq!(f.pc, 2);
    f.push_slot(Slot::Null);
    f.push_slot(Slot::Null);
    f.if_acmpne().unwrap();
    assert_eq!(f.pc, 4);
    f.push_slot(Slot::Null);
    f.if_null().unwrap();
    assert_eq!(f.pc, 6);
    f.push_slot(Slot::Ref(3));
    f.if_non_null().unwrap();
    assert_eq!(f.pc, 8);
    f.push_slot(Slot::Null);
    assert_eq!(f.if_null(), Err(Fault::CodeOutOfRange));
    assert_eq!(f.pc, 8);
    assert_eq!(f.stack_slots(), vec![Slot::Null]);
}

#[test]
fn returns_set_value() {
    let mut f = frame(vec![]);
    f.push_slot(Slot::Long(9));
    assert_eq!(f.ireturn(), Err(Fault::TypeMismatch));
    f.lreturn().unwrap();
    assert_eq!(f.return_v, Some(Slot::Long(9)));
    f.return_().unwrap();
    assert_eq!(f.return_v, Some(Slot::Null));
    f.push_slot(Slot::Ref(0));
    f.areturn().unwrap();
    assert_eq!(f.return_v, Some(Slot::Ref(0)));
}

#[test]
fn deprecated_instructions_are_refused() {
    let mut f = frame(vec![0xc4]);
    assert_eq!(f.jsr(), Err(Fault::Deprecated(168)));
    assert_eq!(f.ret(), Err(Fault::Deprecated(169)));
    assert_eq!(f.frem(), Err(Fault::Deprecated(114)));
    assert_eq!(f.drem(), Err(Fault::Deprecated(115)));
    assert_eq!(f.fneg(), Err(Fault::Deprecated(118)));
    assert_eq!(f.dneg(), Err(Fault::Deprecated(119)));
    assert_eq!(f.wide(), Err(Fault::Deprecated(196)));
    assert_eq!(f.goto_w(), Err(Fault::Deprecated(200)));
    assert_eq!(f.jsr_w(), Err(Fault::Deprecated(201)));
    assert_eq!(f.other_wise(), Err(Fault::CodeOutOfRange));
    f.pc = 1;
    assert_eq!(f.other_wise(), Err(Fault::UndefinedOpcode(0xc4)));
    assert_eq!(f.pc, 1);
}

#[test]
fn unimplemented_instructions_do_nothing() {
    let mut f = frame(vec![1, 2, 3]);
    f.push_slot(Slot::Int(1));
    f.nop().unwrap();
    f.table_switch().unwrap();
    f.lookup_switch().unwrap();
    f.invoke_virtual().unwrap();
    f.invoke_special().unwrap();
    f.invoke_static().unwrap();
    f.invoke_interface().unwrap();
    f.invoke_dynamic().unwrap();
    f.new_array().unwrap();
    f.anew_array().unwrap();
    f.check_cast().unwrap();
    f.instance_of().unwrap();
    f.multi_anew_array().unwrap();
    assert_eq!(f.pc, 0);
    assert_eq!(f.stack_slots(), vec![Slot::Int(1)]);
}

fn field_runtime() -> Runtime {
    Runtime {
        heap: Vec::new(),
        statics: vec![Slot::Int(0), Slot::Null],
        classes: vec![ClassInfo {
            kind: ClassKind::InstanceClass,
            initialized: false,
            field_types: vec![ValueType::Long, ValueType::Object, ValueType::Boolean],
        }],
        fields: vec![
            FieldInfo { value_type: ValueType::Int, is_static: true, index: 0 },
            FieldInfo { value_type: ValueType::Object, is_static: false, index: 1 },
        ],
    }
}

fn field_cp() -> Vec<Constant> {
    vec![Constant::Other, Constant::FieldRef(0), Constant::FieldRef(1), Constant::Class(0)]
}

#[test]
fn put_then_get_static() {
    let mut f = frame_with(field_runtime(), vec![0, 1, 0, 1, 0, 2], field_cp());
    f.push_slot(Slot::Int(77));
    f.put_static().unwrap();
    assert_eq!(f.runtime().statics[0], Slot::Int(77));
    f.get_static().unwrap();
    assert_eq!(f.stack_slots(), vec![Slot::Int(77)]);
    assert_eq!(f.pc, 4);
    assert_eq!(f.get_static(), Err(Fault::BadField));
    assert_eq!(f.pc, 4);
}

#[test]
fn new_instance_and_fields() {
    let mut f = frame_with(field_runtime(), vec![0, 3, 0, 2, 0, 2], field_cp());
    f.new_().unwrap();
    assert!(f.runtime().classes[0].initialized);
    assert_eq!(f.stack_slots(), vec![Slot::Ref(0)]);
    let o = &f.runtime().heap[0];
    assert_eq!(o.kind, ObjKind::Instance(0));
    assert_eq!(o.slots, vec![Slot::Long(0), Slot::Null, Slot::Int(0)]);
    f.dup().unwrap();
    f.push_slot(Slot::Ref(0));
    f.put_field().unwrap();
    assert_eq!(f.runtime().heap[0].slots[1], Slot::Ref(0));
    f.get_field().unwrap();
    assert!(f.stack_slots().is_empty());
    assert_eq!(f.pc, 6);
}

#[test]
fn get_field_of_null_raises() {
    let mut f = frame_with(field_runtime(), vec![0, 2], field_cp());
    f.push_slot(Slot::Null);
    f.get_field().unwrap();
    assert_eq!(f.pc, 2);
    assert_eq!(f.return_v, Some(Slot::Ref(0)));
    assert_eq!(f.runtime().heap[0].kind, ObjKind::Throwable(ExceptionKind::NullPointer));
}

#[test]
fn monitors_count() {
    let mut rt = runtime();
    rt.heap.push(int_array(vec![]));
    let mut f = frame_with(rt, vec![], Vec::new());
    f.push_slot(Slot::Ref(0));
    assert_eq!(f.monitor_exit(), Err(Fault::MonitorState));
    f.monitor_enter().unwrap();
    assert_eq!(f.runtime().heap[0].lock, 1);
    f.push_slot(Slot::Ref(0));
    f.monitor_exit().unwrap();
    assert_eq!(f.runtime().heap[0].lock, 0);
    f.push_slot(Slot::Null);
    f.monitor_enter().unwrap();
    assert_eq!(f.runtime().heap[1].kind, ObjKind::Throwable(ExceptionKind::NullPointer));
}

#[test]
fn athrow_goes_to_handler() {
    let mut rt = runtime();
    rt.heap.push(HeapObject { kind: ObjKind::Instance(4), slots: Vec::new(), bytes: Vec::new(), lock: 0 });
    let handlers = vec![
        ExceptionHandler { start_pc: 0, end_pc: 10, handler_pc: 20, catch: Catch::Class(3) },
        ExceptionHandler { start_pc: 0, end_pc: 10, handler_pc: 30, catch: Catch::Class(4) },
        ExceptionHandler { start_pc: 0, end_pc: 10, handler_pc: 40, catch: Catch::Any },
    ];
    let mut f = Frame::new(rt, method(vec![], Vec::new(), handlers));
    f.pc = 5;
    f.push_slot(Slot::Int(1));
    f.push_slot(Slot::Ref(0));
    f.athrow().unwrap();
    assert_eq!(f.pc, 30);
    assert_eq!(f.stack_slots(), vec![Slot::Ref(0)]);
    f.pc = 5;
    f.push_slot(Slot::Null);
    f.athrow().unwrap();
    assert_eq!(f.pc, 40);
    assert_eq!(f.stack_slots(), vec![Slot::Ref(1)]);
    assert_eq!(f.return_v, None);
}

#[test]
fn athrow_without_handler_returns_exception() {
    let mut rt = runtime();
    rt.heap.push(HeapObject { kind: ObjKind::Instance(0), slots: Vec::new(), bytes: Vec::new(), lock: 0 });
    let handlers =
        vec![ExceptionHandler { start_pc: 0, end_pc: 3, handler_pc: 0, catch: Catch::Any }];
    let mut f = Frame::new(rt, method(vec![], Vec::new(), handlers));
    f.push_slot(Slot::Int(1));
    f.push_slot(Slot::Ref(0));
    f.athrow().unwrap();
    assert_eq!(f.return_v, Some(Slot::Ref(0)));
    assert_eq!(f.stack_slots(), vec![Slot::Int(1)]);
    assert_eq!(f.pc, 0);
}

#[test]
fn handle_exception_allocates_and_throws() {
    let handlers = vec![ExceptionHandler {
        start_pc: 0,
        end_pc: 5,
        handler_pc: 3,
        catch: Catch::Exception(ExceptionKind::Arithmetic),
    }];
    let mut f = Frame::new(runtime(), method(vec![], Vec::new(), handlers));
    f.push_slot(Slot::Int(8));
    f.handle_exception(ExceptionKind::Arithmetic, b"x".to_vec());
    assert_eq!(f.pc, 3);
    assert_eq!(f.stack_slots(), vec![Slot::Ref(0)]);
    assert_eq!(f.runtime().heap[0].bytes, b"x".to_vec());
}
