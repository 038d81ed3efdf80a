//! Java threads: the frames of a thread, and the main thread started with its arguments.

use vstd::prelude::*;
use crate::value::Slot;
use crate::model::{Method, MethodId, MethodView};
use crate::frame::Frame;
use crate::state::FrameState;

verus! {

pub struct JavaThread {
    frames: Vec<Frame>,
    args: Option<Vec<Vec<u8>>>,
    pc: u32,
    in_safe_point: bool,
    java_thread_obj: Option<Slot>,
    exception: Option<Slot>,
    method: Method,
}

/// The mathematical value of a thread.
pub struct ThreadView {
    pub frames: Seq<FrameState>,
    pub args: Option<Seq<Seq<u8>>>,
    pub pc: u32,
    pub in_safe_point: bool,
    pub java_thread_obj: Option<Slot>,
    pub exception: Option<Slot>,
    pub method: MethodView,
}

/// The bytes of each argument.
pub open spec fn args_view(args: Option<Vec<Vec<u8>>>) -> Option<Seq<Seq<u8>>> {
    match args {
        None => None,
        Some(v) => Some(Seq::new(v@.len(), |i: int| v@[i]@)),
    }
}

impl View for JavaThread {
    type V = ThreadView;

    closed spec fn view(&self) -> ThreadView {
        ThreadView {
            frames: Seq::new(self.frames@.len(), |i: int| self.frames@[i]@),
            args: args_view(self.args),
            pc: self.pc,
            in_safe_point: self.in_safe_point,
            java_thread_obj: self.java_thread_obj,
            exception: self.exception,
            method: self.method@,
        }
    }
}

impl JavaThread {
    /// A thread about to run `method` with `args`: no frames, program counter 0, not at a
    /// safe point, no thread object and no pending exception.
    pub fn new(method: &MethodId, args: Option<Vec<Vec<u8>>>) -> (r: JavaThread)
        ensures
            r@.frames == Seq::<FrameState>::empty(),
            r@.args == args_view(args),
            r@.pc == 0,
            !r@.in_safe_point,
            r@.java_thread_obj is None,
            r@.exception is None,
            r@.method == method.method@,
    {
        let r = JavaThread {
            frames: Vec::new(),
            args,
            pc: 0,
            in_safe_point: false,
            java_thread_obj: None,
            exception: None,
            method: method.method.duplicate(),
        };
        assert(r@.frames =~= Seq::<FrameState>::empty());
        r
    }

    /// The arguments the thread was started with.
    pub fn args(&self) -> (r: &Option<Vec<Vec<u8>>>)
        ensures
            args_view(*r) == self@.args,
    {
        &self.args
    }

    /// The method the thread runs.
    pub fn method(&self) -> (r: &Method)
        ensures
            r@ == self@.method,
    {
        &self.method
    }

    /// Running a thread is not implemented: it is left as it is.
    pub fn run(&mut self)
        ensures
            final(self)@ == old(self)@,
    {
    }
}

pub struct JavaMainThread {
    pub main_class: String,
    pub args: Option<Vec<String>>,
}

/// The UTF-8 bytes of each argument.
pub open spec fn main_args_view(args: Option<Vec<String>>) -> Option<Seq<Seq<u8>>> {
    match args {
        None => None,
        Some(v) => Some(Seq::new(v@.len(), |i: int| vstd::utf8::encode_utf8(v@[i]@))),
    }
}

/// The UTF-8 bytes of `s`.
fn string_bytes(s: &String) -> (r: Vec<u8>)
    ensures
        r@ == vstd::utf8::encode_utf8(s@),
{
    let b = s.as_str().as_bytes();
    let mut r: Vec<u8> = Vec::new();
    let mut i: usize = 0;
    while i < b.len()
        invariant
            i <= b@.len(),
            b@ == vstd::utf8::encode_utf8(s@),
            r@ == b@.subrange(0, i as int),
        decreases b@.len() - i,
    {
        r.push(b[i]);
        i += 1;
        assert(r@ =~= b@.subrange(0, i as int));
    }
    assert(r@ =~= b@);
    r
}

impl JavaMainThread {
    /// Starts the main thread on `main_method`, the resolved `main` method of the main
    /// class, with the arguments as strings of UTF-8 bytes; returns the thread.
    pub fn run(&self, main_method: &MethodId) -> (r: JavaThread)
        ensures
            r@.frames == Seq::<FrameState>::empty(),
            r@.args == main_args_view(self.args),
            r@.pc == 0,
            !r@.in_safe_point,
            r@.java_thread_obj is None,
            r@.exception is None,
            r@.method == main_method.method@,
    {
        let args = match &self.args {
            None => None,
            Some(v) => {
                let mut out: Vec<Vec<u8>> = Vec::new();
                let mut i: usize = 0;
                while i < v.len()
                    invariant
                        i <= v@.len(),
                        out@.len() == i,
                        forall|k: int|
                            0 <= k < i ==> out@[k]@ == vstd::utf8::encode_utf8(v@[k]@),
                    decreases v@.len() - i,
                {
                    out.push(string_bytes(&v[i]));
                    i += 1;
                }
                Some(out)
            },
        };
        assert(args_view(args) =~= main_args_view(self.args));
        let mut jt = JavaThread::new(main_method, args);
        jt.run();
        jt
    }
}

} // verus!
