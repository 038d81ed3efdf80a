use lib::model::{Class, Code, Constant, Method, MethodId};
use lib::thread::{JavaMainThread, JavaThread};

fn method() -> MethodId {
    MethodId {
        method: Method {
            class: Class { cp: vec![Constant::Integer(1), Constant::Utf8(b"main".to_vec())] },
            code: Code { max_locals: 1, max_stack: 1, code: vec![0xb1], handlers: Vec::new() },
        },
    }
}

#[test]
fn new_thread_and_run() {
    let m = method();
    let mut t = JavaThread::new(&m, Some(vec![b"a".to_vec()]));
    t.run();
    assert_eq!(t.args(), &Some(vec![b"a".to_vec()]));
    assert_eq!(t.method().code.code, vec![0xb1]);
    assert_eq!(t.method().class.cp.len(), 2);
    match &t.method().class.cp[1] {
        Constant::Utf8(b) => assert_eq!(b, &b"main".to_vec()),
        _ => panic!("constant not copied"),
    }
    let u = JavaThread::new(&m, None);
    assert_eq!(u.args(), &None);
}

#[test]
fn main_thread_passes_arguments() {
    let main = JavaMainThread {
        main_class: "Hello".to_string(),
        args: Some(vec!["x".to_string(), "ĳ".to_string()]),
    };
    let m = method();
    let t = main.run(&m);
    assert_eq!(t.args(), &Some(vec![b"x".to_vec(), vec![0xc4, 0xb3]]));
    assert_eq!(t.method().code.max_locals, 1);
    let bare = JavaMainThread { main_class: "Hello".to_string(), args: None };
    assert_eq!(bare.run(&m).args(), &None);
}
