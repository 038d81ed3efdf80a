use lib::frame::Frame;
use lib::model::{
    Catch, Class, Code, Constant, ExceptionHandler, FieldInfo, HeapObject, Method, MethodId, ObjKind,
    Runtime,
};
use lib::opcode;
use lib::state::Stop;
use lib::value::{ExceptionKind, Slot, ValueType};

fn frame_in(rt: Runtime, code: Vec<u8>, cp: Vec<Constant>) -> Frame {
    Frame::new(
        rt,
        MethodId {
            method: Method {
                class: Class { cp },
                code: Code { max_locals: 4, max_stack: 8, code, handlers: Vec::new() },
            },
        },
    )
}

fn empty() -> Runtime {
    Runtime { heap: Vec::new(), statics: Vec::new(), classes: Vec::new(), fields: Vec::new() }
}

#[test]
fn swap_twice_is_identity() {
    let mut f = frame_in(empty(), vec![], Vec::new());
    f.push_slot(Slot::Int(1));
    f.push_slot(Slot::Long(2));
    f.swap().unwrap();
    assert_eq!(f.stack_slots(), vec![Slot::Long(2), Slot::Int(1)]);
    f.swap().unwrap();
    assert_eq!(f.stack_slots(), vec![Slot::Int(1), Slot::Long(2)]);
}

#[test]
fn dup_then_pop_is_identity() {
    let mut f = frame_in(empty(), vec![], Vec::new());
    f.push_slot(Slot::Null);
    f.dup().unwrap();
    f.pop().unwrap();
    assert_eq!(f.stack_slots(), vec![Slot::Null]);
}

#[test]
fn store_then_load_gives_value_back() {
    let mut f = frame_in(empty(), vec![], Vec::new());
    f.push_slot(Slot::Double(7));
    f.dstore_2().unwrap();
    f.dload_2().unwrap();
    assert_eq!(f.stack_slots(), vec![Slot::Double(7)]);
    assert_eq!(f.local.get(2), Some(Slot::Double(7)));
}

#[test]
fn array_store_then_load_gives_value_back() {
    let mut rt = empty();
    rt.heap.push(HeapObject {
        kind: ObjKind::Array,
        slots: vec![Slot::Long(0); 3],
        bytes: Vec::new(),
        lock: 0,
    });
    let mut f = frame_in(rt, vec![], Vec::new());
    f.push_slot(Slot::Ref(0));
    f.push_slot(Slot::Int(2));
    f.push_slot(Slot::Long(-9));
    f.lastore().unwrap();
    f.push_slot(Slot::Ref(0));
    f.push_slot(Slot::Int(2));
    f.laload().unwrap();
    assert_eq!(f.stack_slots(), vec![Slot::Long(-9)]);
}

#[test]
fn put_then_get_static_gives_value_back() {
    let mut rt = empty();
    rt.statics = vec![Slot::Long(0)];
    rt.fields = vec![FieldInfo { value_type: ValueType::Long, is_static: true, index: 0 }];
    let mut f = frame_in(rt, vec![0, 0], vec![Constant::FieldRef(0)]);
    f.push_slot(Slot::Long(5));
    f.put_static().unwrap();
    f.pc = 0;
    f.get_static().unwrap();
    assert_eq!(f.stack_slots(), vec![Slot::Long(5)]);
}

#[test]
fn quotient_and_remainder_recompose() {
    for &(a, b) in &[(7, 2), (-7, 2), (7, -2), (-7, -2), (i32::MAX, 3), (i32::MIN, 2)] {
        let mut f = frame_in(empty(), vec![], Vec::new());
        f.push_slot(Slot::Int(a));
        f.push_slot(Slot::Int(b));
        f.idiv().unwrap();
        f.push_slot(Slot::Int(a));
        f.push_slot(Slot::Int(b));
        f.irem().unwrap();
        let s = f.stack_slots();
        let (q, r) = match (s[0], s[1]) {
            (Slot::Int(q), Slot::Int(r)) => (q as i64, r as i64),
            _ => panic!("not ints"),
        };
        assert_eq!(q * b as i64 + r, a as i64);
    }
}

#[test]
fn lcmp_is_antisymmetric() {
    for &(a, b) in &[(1i64, 2i64), (5, -5), (3, 3)] {
        let mut f = frame_in(empty(), vec![], Vec::new());
        f.push_slot(Slot::Long(b));
        f.push_slot(Slot::Long(a));
        f.lcmp().unwrap();
        f.push_slot(Slot::Long(a));
        f.push_slot(Slot::Long(b));
        f.lcmp().unwrap();
        let s = f.stack_slots();
        match (s[0], s[1]) {
            (Slot::Int(x), Slot::Int(y)) => assert_eq!(x, -y),
            _ => panic!("not ints"),
        }
    }
}

#[test]
fn raised_exception_is_answered() {
    let mut f = frame_in(empty(), vec![], Vec::new());
    f.push_slot(Slot::Int(3));
    f.handle_exception(ExceptionKind::NullPointer, Vec::new());
    assert!(f.stack_slots().is_empty());
    assert_eq!(f.return_v, Some(Slot::Ref(0)));
    assert_eq!(f.runtime().heap.len(), 1);
    assert_eq!(f.runtime().heap[0].kind, ObjKind::Throwable(ExceptionKind::NullPointer));
}

#[test]
fn larger_budget_same_result() {
    let code = vec![opcode::ICONST_1, opcode::ICONST_2, opcode::IADD, opcode::IRETURN];
    let mut f = frame_in(empty(), code.clone(), Vec::new());
    let mut g = frame_in(empty(), code, Vec::new());
    assert_eq!(f.exec_interp(4), Ok(Stop::Returned));
    assert_eq!(g.exec_interp(1000), Ok(Stop::Returned));
    assert_eq!(f.return_v, g.return_v);
    assert_eq!(f.pc, g.pc);
}

#[test]
fn instructions_keep_the_code_and_tables() {
    let code = vec![opcode::ICONST_1, opcode::ICONST_2, opcode::IADD, opcode::POP];
    let mut f = frame_in(empty(), code, Vec::new());
    assert_eq!(f.exec_interp(10), Ok(Stop::CodeEnd));
    assert_eq!(f.local.len(), 4);
    assert!(f.runtime().heap.is_empty());
    f.pc = 0;
    assert_eq!(f.exec_interp(10), Ok(Stop::CodeEnd));
    assert!(f.stack_slots().is_empty());
}

#[test]
fn control_moves_back_only_to_handlers() {
    let handlers =
        vec![ExceptionHandler { start_pc: 0, end_pc: 9, handler_pc: 1, catch: Catch::Any }];
    let mut f = Frame::new(
        empty(),
        MethodId {
            method: Method {
                class: Class { cp: Vec::new() },
                code: Code { max_locals: 1, max_stack: 2, code: vec![0, 0, 3], handlers },
            },
        },
    );
    f.pc = 1;
    f.goto().unwrap();
    assert_eq!(f.pc, 1 + 1 + 3);
    f.push_slot(Slot::Null);
    f.athrow().unwrap();
    assert_eq!(f.pc, 1);
}
