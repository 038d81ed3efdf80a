use lib::frame::{float_op, Frame};
use lib::model::{Catch, Class, Code, ExceptionHandler, Method, MethodId, Runtime};
use lib::opcode;
use lib::state::Stop;
use lib::value::{Fault, Slot};

fn frame(code: Vec<u8>, handlers: Vec<ExceptionHandler>) -> Frame {
    let rt = Runtime { heap: Vec::new(), statics: Vec::new(), classes: Vec::new(), fields: Vec::new() };
    Frame::new(
        rt,
        MethodId {
            method: Method {
                class: Class { cp: Vec::new() },
                code: Code { max_locals: 2, max_stack: 4, code, handlers },
            },
        },
    )
}

#[test]
fn runs_to_a_return() {
    let mut f = frame(
        vec![opcode::ICONST_2, opcode::ICONST_3, opcode::IADD, opcode::IRETURN, opcode::NOP],
        Vec::new(),
    );
    assert_eq!(f.exec_interp(100), Ok(Stop::Returned));
    assert_eq!(f.return_v, Some(Slot::Int(5)));
    assert_eq!(f.pc, 4);
}

#[test]
fn runs_a_loop_with_locals() {
    // local0 = 3; local1 = 0; local1 += local0 by iinc; return local1 * 2
    let code = vec![
        opcode::ICONST_3,
        opcode::ISTORE_0,
        opcode::ICONST_0,
        opcode::ISTORE_1,
        opcode::IINC,
        1,
        7,
        opcode::ILOAD_1,
        opcode::ICONST_2,
        opcode::IMUL,
        opcode::DUP,
        opcode::ILOAD_0,
        opcode::IF_ICMPGE,
        0x00,
        0x02,
        opcode::ICONST_M1,
        opcode::IRETURN,
    ];
    let mut f = frame(code, Vec::new());
    assert_eq!(f.exec_interp(100), Ok(Stop::Returned));
    // 14 >= 3: the branch at pc 12 moves from 13 to 13 + 1 + 2 = 16, past `iconst_m1`
    assert_eq!(f.return_v, Some(Slot::Int(14)));
}

#[test]
fn stops_at_end_of_code() {
    let mut f = frame(vec![opcode::NOP, opcode::ICONST_1], Vec::new());
    assert_eq!(f.exec_interp(10), Ok(Stop::CodeEnd));
    assert_eq!(f.pc, 3);
    assert_eq!(f.stack_slots(), vec![Slot::Int(1)]);
}

#[test]
fn stops_before_float_instruction() {
    let mut f = frame(vec![opcode::FCONST_1, opcode::FCONST_2, opcode::FADD], Vec::new());
    assert_eq!(f.exec_interp(10), Ok(Stop::FloatOp(opcode::FADD)));
    assert_eq!(f.pc, 3);
    assert_eq!(f.stack_slots().len(), 2);
    assert!(float_op(opcode::FADD));
    assert!(float_op(opcode::D2F));
    assert!(!float_op(opcode::L2I));
    assert!(!float_op(opcode::FREM));
}

#[test]
fn reports_a_fault() {
    let mut f = frame(vec![opcode::ICONST_1, opcode::IADD], Vec::new());
    assert_eq!(f.exec_interp(10), Err(Fault::StackUnderflow));
    assert_eq!(f.pc, 2);
    assert_eq!(f.stack_slots(), vec![Slot::Int(1)]);
    let mut g = frame(vec![opcode::JSR, 0, 0], Vec::new());
    assert_eq!(g.exec_interp(10), Err(Fault::Deprecated(opcode::JSR)));
}

#[test]
fn runs_out_of_budget() {
    // athrow inside its own handler range keeps throwing
    let handlers =
        vec![ExceptionHandler { start_pc: 0, end_pc: 3, handler_pc: 1, catch: Catch::Any }];
    let mut f = frame(vec![opcode::ACONST_NULL, opcode::ATHROW], handlers);
    assert_eq!(f.exec_interp(10), Ok(Stop::OutOfFuel));
    assert_eq!(f.return_v, None);
    let mut g = frame(vec![opcode::NOP], Vec::new());
    assert_eq!(g.exec_interp(0), Ok(Stop::OutOfFuel));
    assert_eq!(g.pc, 0);
}

#[test]
fn athrow_without_handler_continues() {
    let mut f = frame(vec![opcode::ACONST_NULL, opcode::ATHROW, opcode::ICONST_4], Vec::new());
    assert_eq!(f.exec_interp(10), Ok(Stop::CodeEnd));
    assert_eq!(f.return_v, Some(Slot::Ref(0)));
    assert_eq!(f.stack_slots(), vec![Slot::Int(4)]);
}

#[test]
fn execute_runs_one_instruction() {
    let mut f = frame(vec![0x10, 0x05], Vec::new());
    f.pc = 1;
    f.execute(opcode::BIPUSH).unwrap();
    assert_eq!(f.stack_slots(), vec![Slot::Int(5)]);
    f.execute(opcode::DUP).unwrap();
    f.execute(opcode::IMUL).unwrap();
    assert_eq!(f.stack_slots(), vec![Slot::Int(25)]);
    f.execute(250).unwrap();
    assert_eq!(f.stack_slots(), vec![Slot::Int(25)]);
}
