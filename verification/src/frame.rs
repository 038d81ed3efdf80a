//! A frame of the interpreter: one method's code, program counter, locals and operand
//! stack, and the runtime it works on; and the instructions it executes.

use vstd::prelude::*;
use crate::value::{Slot, Kind, ExceptionKind, Fault, slot_has_kind, value_type_kind, default_slot};
use crate::stack::{Stack, peek_at, drop_top};
use crate::local::Local;
use crate::model::{
    Runtime, Class, MethodId, HeapObject, ObjKind, Constant, ExceptionHandler,
    Catch, FieldInfo, ClassKind, ClassView, ObjectView, heap_view, classes_view, cp_view, catches,
};
use crate::state;
use crate::state::{FrameState, Stop, outcome};
use crate::step;
use crate::text::{format_index_message, format_div_zero_message};
use crate::opcode;
use crate::arith::{int_arith_exec, long_arith_exec, long_shift_exec, unary_exec};

verus! {

pub struct Frame {
    thread: Runtime,
    class: Class,
    handlers: Vec<ExceptionHandler>,
    code: Vec<u8>,
    pub local: Local,
    stack: Stack,
    pub pc: i32,
    pub return_v: Option<Slot>,
}

impl View for Frame {
    type V = FrameState;

    closed spec fn view(&self) -> FrameState {
        FrameState {
            code: self.code@,
            pc: self.pc,
            locals: self.local@,
            stack: self.stack@,
            return_v: self.return_v,
            cp: cp_view(self.class.cp@),
            handlers: self.handlers@,
            heap: heap_view(self.thread.heap@),
            statics: self.thread.statics@,
            classes: classes_view(self.thread.classes@),
            fields: self.thread.fields@,
        }
    }
}

//new
impl Frame {
    /// A frame for the method `mir`, working on the runtime `thread`: its program counter
    /// at 0, `max_locals` locals not yet written, an empty stack and no returned value.
    pub fn new(thread: Runtime, mir: MethodId) -> (r: Frame)
        ensures
            r@.code == mir.method.code.code@,
            r@.pc == 0,
            r@.locals == Seq::new(mir.method.code.max_locals as nat, |i: int| Slot::Empty),
            r@.stack == Seq::<Slot>::empty(),
            r@.return_v is None,
            r@.cp == cp_view(mir.method.class.cp@),
            r@.handlers == mir.method.code.handlers@,
            r@.heap == heap_view(thread.heap@),
            r@.statics == thread.statics@,
            r@.classes == classes_view(thread.classes@),
            r@.fields == thread.fields@,
    {
        let MethodId { method } = mir;
        let local = Local::new(method.code.max_locals as usize);
        let stack = Stack::new(method.code.max_stack as usize);
        Frame {
            thread,
            class: method.class,
            handlers: method.code.handlers,
            code: method.code.code,
            local,
            stack,
            pc: 0,
            return_v: None,
        }
    }

    /// The runtime the frame works on.
    pub fn runtime(&self) -> (r: &Runtime)
        ensures
            heap_view(r.heap@) == self@.heap,
            r.statics@ == self@.statics,
            classes_view(r.classes@) == self@.classes,
            r.fields@ == self@.fields,
    {
        &self.thread
    }

    /// The operand stack, bottom first.
    pub fn stack_slots(&self) -> (r: Vec<Slot>)
        ensures
            r@ == self@.stack,
    {
        let n = self.stack.len();
        let mut r: Vec<Slot> = Vec::new();
        let mut i: usize = 0;
        while i < n
            invariant
                n == self@.stack.len(),
                i <= n,
                r@ == self@.stack.subrange(0, i as int),
            decreases n - i,
        {
            let v = self.stack.peek(n - 1 - i);
            match v {
                Some(x) => {
                    r.push(x);
                },
                None => {},
            }
            assert(r@ =~= self@.stack.subrange(0, i + 1));
            i += 1;
        }
        assert(r@ =~= self@.stack);
        r
    }

    /// Pushes `v` on the operand stack.
    pub fn push_slot(&mut self, v: Slot)
        ensures
            final(self)@ == state::push(old(self)@, v),
    {
        self.stack.push(v);
        assert(self@ =~= state::push(old(self)@, v));
    }

    /// Pops the top of the operand stack; `None` on an empty stack.
    pub fn pop_slot(&mut self) -> (r: Option<Slot>)
        ensures
            old(self)@.stack.len() == 0 ==> r is None && final(self)@ == old(self)@,
            old(self)@.stack.len() > 0 ==> r == Some(state::top(old(self)@, 0)) && final(self)@
                == state::pop_n(old(self)@, 1),
    {
        let r = self.stack.pop();
        assert(old(self)@.stack.len() > 0 ==> self@ =~= state::pop_n(old(self)@, 1));
        assert(old(self)@.stack.len() == 0 ==> self@ =~= old(self)@);
        r
    }
}

//helper methods
impl Frame {
    /// The operand byte at the program counter, zero-extended; the counter moves past it.
    fn read_i1(&mut self) -> (r: i32)
        requires
            state::readable(old(self)@, 1),
        ensures
            r == state::u1_at(old(self)@),
            final(self)@ == state::advance(old(self)@, 1),
    {
        let v = self.code[self.pc as usize];
        self.pc = self.pc + 1;
        assert(self@ =~= state::advance(old(self)@, 1));
        v as i32
    }

    /// The two operand bytes at the program counter, as an unsigned big-endian number.
    fn read_i2(&mut self) -> (r: i32)
        requires
            state::readable(old(self)@, 2),
        ensures
            r == state::u2_at(old(self)@),
            final(self)@ == state::advance(old(self)@, 2),
    {
        let hi = self.read_i1();
        let lo = self.read_i1();
        assert(0 <= hi < 256 && 0 <= lo < 256);
        assert(hi << 8 == hi * 256) by (bit_vector)
            requires
                0 <= hi < 256,
        ;
        assert((hi << 8) | lo == (hi << 8) + lo) by (bit_vector)
            requires
                0 <= hi < 256,
                0 <= lo < 256,
        ;
        (hi << 8) | lo
    }

    /// The four operand bytes at the program counter, as a big-endian `i32`.
    #[allow(dead_code)]
    fn read_i4(&mut self) -> (r: i32)
        requires
            state::readable(old(self)@, 4),
        ensures
            r == (state::u2_at(old(self)@) * 65536 + state::u2_at(
                state::advance(old(self)@, 2),
            )) as i32,
            final(self)@ == state::advance(old(self)@, 4),
    {
        let hi = self.read_i2();
        let lo = self.read_i2();
        let v: i64 = (hi as i64) * 65536 + (lo as i64);
        v as i32
    }

    /// The operand byte at the program counter, as an index.
    fn read_u1(&mut self) -> (r: usize)
        requires
            state::readable(old(self)@, 1),
        ensures
            r == state::u1_at(old(self)@),
            final(self)@ == state::advance(old(self)@, 1),
    {
        let v = self.code[self.pc as usize];
        self.pc = self.pc + 1;
        assert(self@ =~= state::advance(old(self)@, 1));
        v as usize
    }

    /// The opcode at the program counter, if the counter lies in the code; the counter
    /// moves on either way, as far as `i32` allows.
    fn read_opcode(&mut self) -> (r: Option<u8>)
        ensures
            r == step::fetch(old(self)@),
            final(self)@ == step::after_fetch(old(self)@),
    {
        let v = if 0 <= self.pc && (self.pc as usize) < self.code.len() && self.pc < i32::MAX {
            Some(self.code[self.pc as usize])
        } else {
            None
        };
        if self.pc < i32::MAX {
            self.pc = self.pc + 1;
        }
        assert(self@ =~= step::after_fetch(old(self)@));
        v
    }

    /// The two operand bytes at the program counter, as an index.
    fn read_u2(&mut self) -> (r: usize)
        requires
            state::readable(old(self)@, 2),
        ensures
            r == state::u2_at(old(self)@),
            final(self)@ == state::advance(old(self)@, 2),
    {
        let v = self.read_i2();
        v as usize
    }

    /// Whether `n` operand bytes follow the program counter.
    fn can_read(&self, n: i32) -> (r: bool)
        requires
            0 < n <= 4,
        ensures
            r == state::readable(self@, n as int),
    {
        0 <= self.pc && self.pc <= i32::MAX - n && ((self.pc + n) as usize) <= self.code.len()
    }

    /// The slot `depth` places below the top of the stack.
    fn top_slot(&self, depth: usize) -> (r: Slot)
        requires
            depth < self@.stack.len(),
        ensures
            r == state::top(self@, depth as int),
    {
        match self.stack.peek(depth) {
            Some(v) => v,
            None => Slot::Empty,
        }
    }

    /// Removes the `n` topmost slots.
    fn pop_n(&mut self, n: usize)
        requires
            n <= old(self)@.stack.len(),
        ensures
            final(self)@ == state::pop_n(old(self)@, n as int),
        decreases n,
    {
        if n > 0 {
            let _ = self.stack.pop();
            self.pop_n(n - 1);
            assert(drop_top(drop_top(old(self)@.stack, 1), n - 1) =~= drop_top(old(self)@.stack, n as int));
        }
        assert(self@ =~= state::pop_n(old(self)@, n as int));
    }

    fn goto_abs(&mut self, pc: i32)
        ensures
            final(self)@ == state::with_pc(old(self)@, pc as int),
    {
        self.pc = pc;
        assert(self@ =~= state::with_pc(old(self)@, pc as int));
    }

    fn set_return(&mut self, v: Slot)
        ensures
            final(self)@ == state::with_return(old(self)@, v),
    {
        self.return_v = Some(v);
        assert(self@ =~= state::with_return(old(self)@, v));
    }

    /// Appends `o` to the heap and pushes a reference to it.
    fn alloc_push(&mut self, o: HeapObject)
        ensures
            final(self)@ == state::alloc_push(old(self)@, o@),
    {
        let h = self.thread.heap.len();
        self.thread.heap.push(o);
        self.stack.push(Slot::Ref(h));
        assert(heap_view(self.thread.heap@) =~= old(self)@.heap.push(o@));
        assert(self@ =~= state::alloc_push(old(self)@, o@));
    }

    /// The handler pc for the object `h` thrown at the current program counter; 0 when
    /// no entry of the exception table catches it.
    fn find_handler(&self, h: usize) -> (r: i32)
        requires
            h < self@.heap.len(),
        ensures
            r == state::handler_for(self@.handlers, self@.pc, self@.heap[h as int].kind),
    {
        let k = self.thread.heap[h].kind;
        let ghost hs = self@.handlers;
        let mut i: usize = 0;
        while i < self.handlers.len()
            invariant
                i <= hs.len(),
                hs == self.handlers@,
                k == self@.heap[h as int].kind,
                state::handler_for(hs, self.pc, k) == state::handler_from(hs, self.pc, k, i as int),
            decreases hs.len() - i,
        {
            let e = self.handlers[i];
            let caught = match e.catch {
                Catch::Any => true,
                Catch::Exception(x) => k == ObjKind::Throwable(x),
                Catch::Class(c) => k == ObjKind::Instance(c),
            };
            assert(caught == catches(e.catch, k));
            if (e.start_pc as i32) <= self.pc && self.pc < (e.end_pc as i32) && caught {
                return e.handler_pc as i32;
            }
            i += 1;
        }
        0
    }

    /// Throws the object `h`, already popped: a handler above 0 receives it on an emptied
    /// stack; otherwise it becomes the returned value.
    fn throw_ref(&mut self, h: usize)
        requires
            h < old(self)@.heap.len(),
        ensures
            final(self)@ == state::throw_ref(old(self)@, h as int),
    {
        let handler = self.find_handler(h);
        if handler > 0 {
            self.stack.clear();
            self.stack.push(Slot::Ref(h));
            self.goto_abs(handler);
            assert(self@ =~= state::throw_ref(old(self)@, h as int));
        } else {
            self.set_return(Slot::Ref(h));
        }
    }

    /// Raises an exception of kind `kind` with message `msg`: the exception object is
    /// allocated, the stack cleared, and the object thrown.
    pub fn handle_exception(&mut self, kind: ExceptionKind, msg: Vec<u8>)
        ensures
            final(self)@ == state::raise(old(self)@, kind, msg@),
    {
        let h = self.thread.heap.len();
        let o = HeapObject { kind: ObjKind::Throwable(kind), slots: Vec::new(), bytes: msg, lock: 0 };
        self.thread.heap.push(o);
        self.stack.clear();
        assert(heap_view(self.thread.heap@) =~= old(self)@.heap.push(state::throwable(kind, msg@)));
        assert(self@ =~= state::with_stack(
            state::with_heap(old(self)@, old(self)@.heap.push(state::throwable(kind, msg@))),
            Seq::empty(),
        ));
        self.throw_ref(h);
    }

    fn raise_npe(&mut self)
        ensures
            final(self)@ == state::raise_npe(old(self)@),
    {
        let msg: Vec<u8> = Vec::new();
        assert(msg@ =~= Seq::<u8>::empty());
        self.handle_exception(ExceptionKind::NullPointer, msg);
    }
}

// generic instruction bodies
impl Frame {
    fn push_const(&mut self, v: Slot) -> (r: Result<(), Fault>)
        ensures
            outcome(old(self)@, final(self)@, r, Ok(state::push(old(self)@, v))),
    {
        self.push_slot(v);
        Ok(())
    }

    /// Pushes constant pool entry `pos`.
    fn load_constant(&mut self, pos: usize) -> (r: Result<(), Fault>)
        ensures
            outcome(old(self)@, final(self)@, r, state::load_constant_spec(old(self)@, pos as int)),
    {
        if pos >= self.class.cp.len() {
            return Err(Fault::BadConstant);
        }
        let ghost s = self@;
        assert(s.cp[pos as int] == self.class.cp@[pos as int]@);
        let v = match &self.class.cp[pos] {
            Constant::Integer(v) => Slot::Int(*v),
            Constant::Float(v) => Slot::Float(*v),
            Constant::Long(v) => Slot::Long(*v),
            Constant::Double(v) => Slot::Double(*v),
            Constant::String(i) => {
                let i = *i as usize;
                if i >= self.class.cp.len() {
                    return Err(Fault::BadConstant);
                }
                assert(s.cp[i as int] == self.class.cp@[i as int]@);
                let bytes = match &self.class.cp[i] {
                    Constant::Utf8(b) => b.clone(),
                    _ => {
                        return Err(Fault::BadConstant);
                    },
                };
                assert(bytes@ =~= s.cp[i as int]->Utf8_0);
                let o = HeapObject { kind: ObjKind::Str, slots: Vec::new(), bytes, lock: 0 };
                self.alloc_push(o);
                assert(o@ =~= ObjectView {
                    kind: ObjKind::Str,
                    slots: Seq::empty(),
                    bytes: s.cp[i as int]->Utf8_0,
                    lock: 0,
                });
                return Ok(());
            },
            Constant::Class(_) => {
                return Err(Fault::UnsupportedConstant);
            },
            _ => {
                return Err(Fault::BadConstant);
            },
        };
        self.push_slot(v);
        Ok(())
    }

    /// `ldc` (`width` 1) and `ldc_w`, `ldc2_w` (`width` 2).
    fn ldc_impl(&mut self, width: i32) -> (r: Result<(), Fault>)
        requires
            width == 1 || width == 2,
        ensures
            outcome(old(self)@, final(self)@, r, state::ldc_spec(old(self)@, width as int)),
    {
        if !self.can_read(width) {
            return Err(Fault::CodeOutOfRange);
        }
        let ghost s = self@;
        let pc0 = self.pc;
        let pos = if width == 1 {
            self.read_u1()
        } else {
            self.read_u2()
        };
        let r = self.load_constant(pos);
        if r.is_err() {
            self.pc = pc0;
            assert(self@ =~= s);
        }
        r
    }

    /// Pushes local `idx`, which must hold a value of kind `k`.
    fn load(&mut self, k: Kind, idx: usize) -> (r: Result<(), Fault>)
        ensures
            outcome(old(self)@, final(self)@, r, state::load_spec(old(self)@, k, idx as int)),
    {
        match self.local.get(idx) {
            None => Err(Fault::LocalOutOfRange),
            Some(v) => {
                if !slot_has_kind(v, k) {
                    return Err(Fault::TypeMismatch);
                }
                self.push_slot(v);
                Ok(())
            },
        }
    }

    /// A load whose local index is the operand byte.
    fn load_op(&mut self, k: Kind) -> (r: Result<(), Fault>)
        ensures
            outcome(old(self)@, final(self)@, r, state::load_op_spec(old(self)@, k)),
    {
        if !self.can_read(1) {
            return Err(Fault::CodeOutOfRange);
        }
        let ghost s = self@;
        let pc0 = self.pc;
        let pos = self.read_u1();
        let r = self.load(k, pos);
        if r.is_err() {
            self.pc = pc0;
            assert(self@ =~= s);
        }
        r
    }

    /// Pops a value of kind `k` into local `idx`.
    fn store(&mut self, k: Kind, idx: usize) -> (r: Result<(), Fault>)
        ensures
            outcome(old(self)@, final(self)@, r, state::store_spec(old(self)@, k, idx as int)),
    {
        if self.stack.len() < 1 {
            return Err(Fault::StackUnderflow);
        }
        let v = self.top_slot(0);
        if !slot_has_kind(v, k) {
            return Err(Fault::TypeMismatch);
        }
        if idx >= self.local.len() {
            return Err(Fault::LocalOutOfRange);
        }
        self.pop_n(1);
        self.local.set(idx, v);
        assert(self@ =~= state::with_locals(
            state::pop_n(old(self)@, 1),
            old(self)@.locals.update(idx as int, v),
        ));
        Ok(())
    }

    /// A store whose local index is the operand byte.
    fn store_op(&mut self, k: Kind) -> (r: Result<(), Fault>)
        ensures
            outcome(old(self)@, final(self)@, r, state::store_op_spec(old(self)@, k)),
    {
        if !self.can_read(1) {
            return Err(Fault::CodeOutOfRange);
        }
        let ghost s = self@;
        let pc0 = self.pc;
        let pos = self.read_u1();
        let r = self.store(k, pos);
        if r.is_err() {
            self.pc = pc0;
            assert(self@ =~= s);
        }
        r
    }
}

// generic instruction bodies: constants, arrays, stack shuffles
impl Frame {
    fn bipush_impl(&mut self) -> (r: Result<(), Fault>)
        ensures
            outcome(old(self)@, final(self)@, r, state::bipush_spec(old(self)@)),
    {
        if !self.can_read(1) {
            return Err(Fault::CodeOutOfRange);
        }
        let v = self.read_i1();
        self.push_slot(Slot::Int(v));
        Ok(())
    }

    fn sipush_impl(&mut self) -> (r: Result<(), Fault>)
        ensures
            outcome(old(self)@, final(self)@, r, state::sipush_spec(old(self)@)),
    {
        if !self.can_read(2) {
            return Err(Fault::CodeOutOfRange);
        }
        let v = self.read_i2();
        self.push_slot(Slot::Int(v));
        Ok(())
    }

    /// Whether the reference `h` names an array of the heap.
    fn check_array(&self, h: usize) -> (r: Option<Fault>)
        ensures
            r == state::array_check(self@, h),
            r is None ==> self@.heap[h as int] == self.thread.heap@[h as int]@,
    {
        if h >= self.thread.heap.len() {
            return Some(Fault::DanglingReference);
        }
        assert(self@.heap[h as int] == self.thread.heap@[h as int]@);
        if self.thread.heap[h].kind != ObjKind::Array {
            return Some(Fault::TypeMismatch);
        }
        None
    }

    /// Replaces slot `i` of heap object `h` by `v`.
    fn set_heap_slot(&mut self, h: usize, i: usize, v: Slot)
        requires
            h < old(self)@.heap.len(),
            i < old(self)@.heap[h as int].slots.len(),
        ensures
            final(self)@ == state::set_object(
                old(self)@,
                h as int,
                state::set_slot(old(self)@.heap[h as int], i as int, v),
            ),
    {
        assert(old(self)@.heap[h as int] == self.thread.heap@[h as int]@);
        self.thread.heap[h].slots.set(i, v);
        assert(heap_view(self.thread.heap@) =~= old(self)@.heap.update(
            h as int,
            state::set_slot(old(self)@.heap[h as int], i as int, v),
        ));
        assert(self@ =~= state::set_object(
            old(self)@,
            h as int,
            state::set_slot(old(self)@.heap[h as int], i as int, v),
        ));
    }

    /// Pops `drop` slots and raises an `ArrayIndexOutOfBoundsException` for an array of
    /// `len` elements accessed at `pos`.
    fn raise_index(&mut self, drop: usize, len: usize, pos: i32)
        requires
            drop <= old(self)@.stack.len(),
        ensures
            final(self)@ == state::raise(
                state::pop_n(old(self)@, drop as int),
                ExceptionKind::ArrayIndexOutOfBounds,
                crate::text::index_message(len as nat, pos as int),
            ),
    {
        let msg = format_index_message(len, pos);
        self.pop_n(drop);
        self.handle_exception(ExceptionKind::ArrayIndexOutOfBounds, msg);
    }

    /// Pops an index and an array reference, and pushes the element, which must be of
    /// kind `k`.
    fn array_load(&mut self, k: Kind) -> (r: Result<(), Fault>)
        ensures
            outcome(old(self)@, final(self)@, r, state::array_load_spec(old(self)@, k)),
    {
        if self.stack.len() < 2 {
            return Err(Fault::StackUnderflow);
        }
        let t0 = self.top_slot(0);
        let t1 = self.top_slot(1);
        let pos = match t0 {
            Slot::Int(p) => p,
            _ => {
                return Err(Fault::TypeMismatch);
            },
        };
        if !slot_has_kind(t1, Kind::Reference) {
            return Err(Fault::TypeMismatch);
        }
        match t1 {
            Slot::Ref(h) => {
                if let Some(f) = self.check_array(h) {
                    return Err(f);
                }
                let len = self.thread.heap[h].slots.len();
                if pos < 0 || pos as usize >= len {
                    self.raise_index(2, len, pos);
                    return Ok(());
                }
                let e = self.thread.heap[h].slots[pos as usize];
                if !slot_has_kind(e, k) {
                    return Err(Fault::TypeMismatch);
                }
                self.pop_n(2);
                self.push_slot(e);
                Ok(())
            },
            _ => {
                self.pop_n(2);
                self.raise_npe();
                Ok(())
            },
        }
    }

    /// Pops a value of kind `k`, an index and an array reference, and stores the value.
    fn array_store(&mut self, k: Kind) -> (r: Result<(), Fault>)
        ensures
            outcome(old(self)@, final(self)@, r, state::array_store_spec(old(self)@, k)),
    {
        if self.stack.len() < 3 {
            return Err(Fault::StackUnderflow);
        }
        let v = self.top_slot(0);
        let t1 = self.top_slot(1);
        let t2 = self.top_slot(2);
        if !slot_has_kind(v, k) {
            return Err(Fault::TypeMismatch);
        }
        let pos = match t1 {
            Slot::Int(p) => p,
            _ => {
                return Err(Fault::TypeMismatch);
            },
        };
        if !slot_has_kind(t2, Kind::Reference) {
            return Err(Fault::TypeMismatch);
        }
        match t2 {
            Slot::Ref(h) => {
                if let Some(f) = self.check_array(h) {
                    return Err(f);
                }
                let len = self.thread.heap[h].slots.len();
                if pos < 0 || pos as usize >= len {
                    self.raise_index(3, len, pos);
                    return Ok(());
                }
                self.pop_n(3);
                self.set_heap_slot(h, pos as usize, v);
                Ok(())
            },
            _ => {
                self.pop_n(3);
                self.raise_npe();
                Ok(())
            },
        }
    }

    /// Pushes the length of the array a popped reference names.
    fn array_length_impl(&mut self) -> (r: Result<(), Fault>)
        ensures
            outcome(old(self)@, final(self)@, r, state::array_length_spec(old(self)@)),
    {
        if self.stack.len() < 1 {
            return Err(Fault::StackUnderflow);
        }
        let t0 = self.top_slot(0);
        if !slot_has_kind(t0, Kind::Reference) {
            return Err(Fault::TypeMismatch);
        }
        match t0 {
            Slot::Ref(h) => {
                if let Some(f) = self.check_array(h) {
                    return Err(f);
                }
                let len = self.thread.heap[h].slots.len();
                self.pop_n(1);
                self.push_slot(Slot::Int(len as i32));
                Ok(())
            },
            _ => {
                self.pop_n(1);
                self.raise_npe();
                Ok(())
            },
        }
    }

    /// Pops `n` slots and pushes back the slots that stood at the depths of `pattern`.
    fn shuffle(&mut self, n: usize, pattern: Vec<usize>) -> (r: Result<(), Fault>)
        requires
            forall|i: int| 0 <= i < pattern@.len() ==> pattern@[i] < n,
        ensures
            outcome(
                old(self)@,
                final(self)@,
                r,
                state::shuffle_spec(old(self)@, n as int, pattern@),
            ),
    {
        if self.stack.len() < n {
            return Err(Fault::StackUnderflow);
        }
        let ghost s = self@;
        let mut vals: Vec<Slot> = Vec::new();
        let mut i: usize = 0;
        while i < n
            invariant
                i <= n,
                n <= s.stack.len(),
                self@ == s,
                vals@.len() == i,
                forall|d: int| 0 <= d < i ==> vals@[d] == peek_at(s.stack, d),
            decreases n - i,
        {
            let v = self.top_slot(i);
            vals.push(v);
            i += 1;
        }
        self.pop_n(n);
        let mut j: usize = 0;
        while j < pattern.len()
            invariant
                j <= pattern@.len(),
                n <= s.stack.len(),
                vals@.len() == n,
                forall|d: int| 0 <= d < n ==> vals@[d] == peek_at(s.stack, d),
                forall|i: int| 0 <= i < pattern@.len() ==> pattern@[i] < n,
                self@ == state::with_stack(
                    s,
                    drop_top(s.stack, n as int) + Seq::new(
                        j as nat,
                        |i: int| peek_at(s.stack, pattern@[i] as int),
                    ),
                ),
            decreases pattern@.len() - j,
        {
            let d = pattern[j];
            self.push_slot(vals[d]);
            j += 1;
            assert(self@.stack =~= drop_top(s.stack, n as int) + Seq::new(
                j as nat,
                |i: int| peek_at(s.stack, pattern@[i] as int),
            ));
            assert(self@ =~= state::with_stack(
                s,
                drop_top(s.stack, n as int) + Seq::new(
                    j as nat,
                    |i: int| peek_at(s.stack, pattern@[i] as int),
                ),
            ));
        }
        Ok(())
    }
}

// generic instruction bodies: arithmetic
impl Frame {
    /// Pops the index (top), the array reference and, for an index in bounds, the
    /// reference to store.
    fn aastore_impl(&mut self) -> (r: Result<(), Fault>)
        ensures
            outcome(old(self)@, final(self)@, r, state::aastore_spec(old(self)@)),
    {
        if self.stack.len() < 2 {
            return Err(Fault::StackUnderflow);
        }
        let t0 = self.top_slot(0);
        let t1 = self.top_slot(1);
        let pos = match t0 {
            Slot::Int(p) => p,
            _ => {
                return Err(Fault::TypeMismatch);
            },
        };
        if !slot_has_kind(t1, Kind::Reference) {
            return Err(Fault::TypeMismatch);
        }
        match t1 {
            Slot::Ref(h) => {
                if let Some(f) = self.check_array(h) {
                    return Err(f);
                }
                let len = self.thread.heap[h].slots.len();
                if pos < 0 || pos as usize >= len {
                    self.raise_index(2, len, pos);
                    return Ok(());
                }
                if self.stack.len() < 3 {
                    return Err(Fault::StackUnderflow);
                }
                let v = self.top_slot(2);
                if !slot_has_kind(v, Kind::Reference) {
                    return Err(Fault::TypeMismatch);
                }
                self.pop_n(3);
                self.set_heap_slot(h, pos as usize, v);
                Ok(())
            },
            _ => {
                self.pop_n(2);
                self.raise_npe();
                Ok(())
            },
        }
    }

    /// Pops two `int` values and pushes the result of `op`; a division by zero raises an
    /// `ArithmeticException`.
    fn int_binop(&mut self, op: u8) -> (r: Result<(), Fault>)
        requires
            state::is_int_binop(op),
        ensures
            outcome(old(self)@, final(self)@, r, state::int_binop_spec(old(self)@, op)),
    {
        if self.stack.len() < 2 {
            return Err(Fault::StackUnderflow);
        }
        let (a, b) = match (self.top_slot(1), self.top_slot(0)) {
            (Slot::Int(a), Slot::Int(b)) => (a, b),
            _ => {
                return Err(Fault::TypeMismatch);
            },
        };
        self.pop_n(2);
        if (op == opcode::IDIV || op == opcode::IREM || op == opcode::LDIV || op == opcode::LREM)
            && b == 0 {
            let msg = format_div_zero_message();
            self.handle_exception(ExceptionKind::Arithmetic, msg);
        } else {
            let v = int_arith_exec(op, a, b);
            self.push_slot(Slot::Int(v));
        }
        Ok(())
    }

    /// Pops two `long` values and pushes the result of `op`; a division by zero raises an
    /// `ArithmeticException`.
    fn long_binop(&mut self, op: u8) -> (r: Result<(), Fault>)
        requires
            state::is_long_binop(op),
        ensures
            outcome(old(self)@, final(self)@, r, state::long_binop_spec(old(self)@, op)),
    {
        if self.stack.len() < 2 {
            return Err(Fault::StackUnderflow);
        }
        let (a, b) = match (self.top_slot(1), self.top_slot(0)) {
            (Slot::Long(a), Slot::Long(b)) => (a, b),
            _ => {
                return Err(Fault::TypeMismatch);
            },
        };
        self.pop_n(2);
        if (op == opcode::IDIV || op == opcode::IREM || op == opcode::LDIV || op == opcode::LREM)
            && b == 0 {
            let msg = format_div_zero_message();
            self.handle_exception(ExceptionKind::Arithmetic, msg);
        } else {
            let v = long_arith_exec(op, a, b);
            self.push_slot(Slot::Long(v));
        }
        Ok(())
    }

    /// Pops an `int` shift count and a `long`, and pushes the shifted `long`.
    fn long_shift_op(&mut self, op: u8) -> (r: Result<(), Fault>)
        ensures
            outcome(old(self)@, final(self)@, r, state::long_shift_spec(old(self)@, op)),
    {
        if self.stack.len() < 2 {
            return Err(Fault::StackUnderflow);
        }
        let (a, b) = match (self.top_slot(1), self.top_slot(0)) {
            (Slot::Long(a), Slot::Int(b)) => (a, b),
            _ => {
                return Err(Fault::TypeMismatch);
            },
        };
        self.pop_n(2);
        let v = long_shift_exec(op, a, b);
        self.push_slot(Slot::Long(v));
        Ok(())
    }

    /// Pops one value and pushes its negation or conversion.
    fn unary(&mut self, op: u8) -> (r: Result<(), Fault>)
        ensures
            outcome(old(self)@, final(self)@, r, state::unary_spec(old(self)@, op)),
    {
        if self.stack.len() < 1 {
            return Err(Fault::StackUnderflow);
        }
        let v = self.top_slot(0);
        let k = if op == opcode::LNEG || op == opcode::L2I {
            Kind::Long
        } else {
            Kind::Int
        };
        if !slot_has_kind(v, k) {
            return Err(Fault::TypeMismatch);
        }
        self.pop_n(1);
        self.push_slot(unary_exec(op, v));
        Ok(())
    }

    fn lcmp_impl(&mut self) -> (r: Result<(), Fault>)
        ensures
            outcome(old(self)@, final(self)@, r, state::lcmp_spec(old(self)@)),
    {
        if self.stack.len() < 2 {
            return Err(Fault::StackUnderflow);
        }
        let (v1, v2) = match (self.top_slot(0), self.top_slot(1)) {
            (Slot::Long(a), Slot::Long(b)) => (a, b),
            _ => {
                return Err(Fault::TypeMismatch);
            },
        };
        self.pop_n(2);
        if v1 > v2 {
            self.push_slot(Slot::Int(-1));
        } else if v1 < v2 {
            self.push_slot(Slot::Int(1));
        } else {
            self.push_slot(Slot::Int(0));
        }
        Ok(())
    }

    fn iinc_impl(&mut self) -> (r: Result<(), Fault>)
        ensures
            outcome(old(self)@, final(self)@, r, state::iinc_spec(old(self)@)),
    {
        if !self.can_read(2) {
            return Err(Fault::CodeOutOfRange);
        }
        let pos = self.code[self.pc as usize] as usize;
        let factor = self.code[(self.pc + 1) as usize] as i32;
        let v = match self.local.get(pos) {
            None => {
                return Err(Fault::LocalOutOfRange);
            },
            Some(Slot::Int(v)) => v,
            Some(_) => {
                return Err(Fault::TypeMismatch);
            },
        };
        let _ = self.read_u1();
        let _ = self.read_i1();
        self.local.set(pos, Slot::Int(v.wrapping_add(factor)));
        assert(self@ =~= state::with_locals(
            state::advance(old(self)@, 2),
            old(self)@.locals.update(pos as int, Slot::Int(v.wrapping_add(factor))),
        ));
        Ok(())
    }
}

// generic instruction bodies: branches, returns, fields, objects
impl Frame {
    /// The two operand bytes at the program counter, as an unsigned number, without
    /// moving the counter.
    fn peek_u2(&self) -> (r: usize)
        requires
            state::readable(self@, 2),
        ensures
            r == state::u2_at(self@),
    {
        let hi = self.code[self.pc as usize] as usize;
        let lo = self.code[(self.pc + 1) as usize] as usize;
        hi * 256 + lo
    }

    /// The fault a branch taken (or not) would meet, if any.
    fn branch_fault(&self, taken: bool) -> (r: Option<Fault>)
        ensures
            r is None <==> state::branch_spec(self@, taken) is Ok,
            r matches Some(e) ==> state::branch_spec(self@, taken) == Err::<FrameState, Fault>(e),
    {
        if taken {
            if !self.can_read(2) {
                return Some(Fault::CodeOutOfRange);
            }
            let off = self.peek_u2();
            if (self.pc as i64) + 1 + (off as i64) > i32::MAX as i64 {
                return Some(Fault::PcOverflow);
            }
            None
        } else if self.pc > i32::MAX - 2 {
            Some(Fault::PcOverflow)
        } else {
            None
        }
    }

    /// Takes a branch (or skips its offset), which must not fault.
    fn take_branch(&mut self, taken: bool)
        requires
            state::branch_spec(old(self)@, taken) is Ok,
        ensures
            Ok::<FrameState, Fault>(final(self)@) == state::branch_spec(old(self)@, taken),
    {
        if taken {
            let branch = self.read_i2();
            self.pc = self.pc + (branch - 1);
            assert(self@ =~= state::with_pc(
                old(self)@,
                old(self)@.pc + 1 + state::u2_at(old(self)@),
            ));
        } else {
            self.pc = self.pc + 2;
            assert(self@ =~= state::advance(old(self)@, 2));
        }
    }

    /// Pops `n` slots and branches on `taken`.
    fn pop_and_branch(&mut self, n: usize, taken: bool) -> (r: Result<(), Fault>)
        requires
            n <= old(self)@.stack.len(),
        ensures
            outcome(
                old(self)@,
                final(self)@,
                r,
                state::branch_spec(state::pop_n(old(self)@, n as int), taken),
            ),
    {
        if let Some(e) = self.branch_fault(taken) {
            return Err(e);
        }
        self.pop_n(n);
        self.take_branch(taken);
        Ok(())
    }

    fn if_int(&mut self, op: u8) -> (r: Result<(), Fault>)
        ensures
            outcome(old(self)@, final(self)@, r, state::if_spec(old(self)@, op)),
    {
        if self.stack.len() < 1 {
            return Err(Fault::StackUnderflow);
        }
        let v = match self.top_slot(0) {
            Slot::Int(v) => v,
            _ => {
                return Err(Fault::TypeMismatch);
            },
        };
        let taken = if op == opcode::IFEQ {
            v == 0
        } else if op == opcode::IFNE {
            v != 0
        } else if op == opcode::IFLT {
            v < 0
        } else if op == opcode::IFGE {
            v >= 0
        } else if op == opcode::IFGT {
            v > 0
        } else {
            v <= 0
        };
        self.pop_and_branch(1, taken)
    }

    fn if_icmp(&mut self, op: u8) -> (r: Result<(), Fault>)
        ensures
            outcome(old(self)@, final(self)@, r, state::if_icmp_spec(old(self)@, op)),
    {
        if self.stack.len() < 2 {
            return Err(Fault::StackUnderflow);
        }
        let (a, b) = match (self.top_slot(1), self.top_slot(0)) {
            (Slot::Int(a), Slot::Int(b)) => (a, b),
            _ => {
                return Err(Fault::TypeMismatch);
            },
        };
        let taken = if op == opcode::IF_ICMPEQ {
            a == b
        } else if op == opcode::IF_ICMPNE {
            a != b
        } else if op == opcode::IF_ICMPLT {
            a < b
        } else if op == opcode::IF_ICMPGE {
            a >= b
        } else if op == opcode::IF_ICMPGT {
            a > b
        } else {
            a <= b
        };
        self.pop_and_branch(2, taken)
    }

    fn if_acmp(&mut self, op: u8) -> (r: Result<(), Fault>)
        ensures
            outcome(old(self)@, final(self)@, r, state::if_acmp_spec(old(self)@, op)),
    {
        if self.stack.len() < 2 {
            return Err(Fault::StackUnderflow);
        }
        let v2 = self.top_slot(0);
        let v1 = self.top_slot(1);
        if !slot_has_kind(v2, Kind::Reference) || !slot_has_kind(v1, Kind::Reference) {
            return Err(Fault::TypeMismatch);
        }
        let same = v1 == v2;
        self.pop_and_branch(2, same == (op == opcode::IF_ACMPEQ))
    }

    fn if_null_impl(&mut self, op: u8) -> (r: Result<(), Fault>)
        ensures
            outcome(old(self)@, final(self)@, r, state::if_null_spec(old(self)@, op)),
    {
        if self.stack.len() < 1 {
            return Err(Fault::StackUnderflow);
        }
        let v = self.top_slot(0);
        if !slot_has_kind(v, Kind::Reference) {
            return Err(Fault::TypeMismatch);
        }
        let is_null = matches!(v, Slot::Null);
        self.pop_and_branch(1, is_null == (op == opcode::IFNULL))
    }

    /// Pops a value of kind `k` and makes it the returned value.
    fn return_value(&mut self, k: Kind) -> (r: Result<(), Fault>)
        ensures
            outcome(old(self)@, final(self)@, r, state::return_spec(old(self)@, k)),
    {
        if self.stack.len() < 1 {
            return Err(Fault::StackUnderflow);
        }
        let v = self.top_slot(0);
        if !slot_has_kind(v, k) {
            return Err(Fault::TypeMismatch);
        }
        self.pop_n(1);
        self.set_return(v);
        Ok(())
    }

    /// The field that constant pool entry `idx` names, if it is a field reference to a
    /// field whose staticness is `is_static`.
    fn get_field_ref(&self, idx: usize, is_static: bool) -> (r: Option<FieldInfo>)
        ensures
            r == state::resolve_field(self@, idx as int, is_static),
    {
        if idx >= self.class.cp.len() {
            return None;
        }
        assert(self@.cp[idx as int] == self.class.cp@[idx as int]@);
        match &self.class.cp[idx] {
            Constant::FieldRef(f) => {
                let f = *f;
                if f < self.thread.fields.len() && self.thread.fields[f].is_static == is_static {
                    Some(self.thread.fields[f])
                } else {
                    None
                }
            },
            _ => None,
        }
    }

    /// Reads the static field named by the two operand bytes, with its kind.
    fn get_field_helper(&self) -> (r: Result<Slot, Fault>)
        requires
            state::readable(self@, 2),
        ensures
            state::get_static_spec(self@) == (match r {
                Ok(v) => Ok(state::push(state::advance(self@, 2), v)),
                Err(e) => Err::<FrameState, Fault>(e),
            }),
    {
        let idx = self.peek_u2();
        let f = match self.get_field_ref(idx, true) {
            None => {
                return Err(Fault::BadField);
            },
            Some(f) => f,
        };
        let k = value_type_kind(f.value_type);
        if f.index >= self.thread.statics.len() || k.is_none() {
            return Err(Fault::BadField);
        }
        let k = k.unwrap();
        let v = self.thread.statics[f.index];
        if !slot_has_kind(v, k) {
            return Err(Fault::TypeMismatch);
        }
        Ok(v)
    }

    fn get_static_impl(&mut self) -> (r: Result<(), Fault>)
        ensures
            outcome(old(self)@, final(self)@, r, state::get_static_spec(old(self)@)),
    {
        if !self.can_read(2) {
            return Err(Fault::CodeOutOfRange);
        }
        let v = self.get_field_helper()?;
        let _ = self.read_i2();
        self.push_slot(v);
        Ok(())
    }

    /// Checks that the reference `h` names an instance with a slot for field `f`.
    fn check_instance(&self, h: usize, f: FieldInfo) -> (r: Option<Fault>)
        ensures
            r == state::instance_check(self@, h, f),
            r is None ==> self@.heap[h as int] == self.thread.heap@[h as int]@,
    {
        if h >= self.thread.heap.len() {
            return Some(Fault::DanglingReference);
        }
        assert(self@.heap[h as int] == self.thread.heap@[h as int]@);
        match self.thread.heap[h].kind {
            ObjKind::Instance(_) => {},
            _ => {
                return Some(Fault::TypeMismatch);
            },
        }
        if f.index >= self.thread.heap[h].slots.len() {
            return Some(Fault::BadField);
        }
        None
    }

    /// `putstatic` (`is_static`) and `putfield`: pops a value of the field's kind (and for
    /// an instance field the object reference) and stores it.
    fn put_field_helper(&mut self, is_static: bool) -> (r: Result<(), Fault>)
        ensures
            outcome(
                old(self)@,
                final(self)@,
                r,
                if is_static {
                    state::put_static_spec(old(self)@)
                } else {
                    state::put_field_spec(old(self)@)
                },
            ),
    {
        if !self.can_read(2) {
            return Err(Fault::CodeOutOfRange);
        }
        let idx = self.peek_u2();
        let f = match self.get_field_ref(idx, is_static) {
            None => {
                return Err(Fault::BadField);
            },
            Some(f) => f,
        };
        let k = match value_type_kind(f.value_type) {
            None => {
                return Err(Fault::BadField);
            },
            Some(k) => k,
        };
        if self.stack.len() < 1 {
            return Err(Fault::StackUnderflow);
        }
        let v = self.top_slot(0);
        if !slot_has_kind(v, k) {
            return Err(Fault::TypeMismatch);
        }
        if is_static {
            if f.index >= self.thread.statics.len() {
                return Err(Fault::BadField);
            }
            let _ = self.read_i2();
            self.pop_n(1);
            self.thread.statics.set(f.index, v);
            assert(self@ =~= FrameState {
                statics: old(self)@.statics.update(f.index as int, v),
                ..state::pop_n(state::advance(old(self)@, 2), 1)
            });
            return Ok(());
        }
        if self.stack.len() < 2 {
            return Err(Fault::StackUnderflow);
        }
        let receiver = self.top_slot(1);
        if !slot_has_kind(receiver, Kind::Reference) {
            return Err(Fault::TypeMismatch);
        }
        match receiver {
            Slot::Ref(h) => {
                if let Some(e) = self.check_instance(h, f) {
                    return Err(e);
                }
                let _ = self.read_i2();
                self.pop_n(2);
                self.set_heap_slot(h, f.index, v);
                Ok(())
            },
            _ => {
                let _ = self.read_i2();
                self.pop_n(2);
                self.raise_npe();
                Ok(())
            },
        }
    }

    fn get_field_impl(&mut self) -> (r: Result<(), Fault>)
        ensures
            outcome(old(self)@, final(self)@, r, state::get_field_spec(old(self)@)),
    {
        if !self.can_read(2) {
            return Err(Fault::CodeOutOfRange);
        }
        if self.stack.len() < 1 {
            return Err(Fault::StackUnderflow);
        }
        let rf = self.top_slot(0);
        if !slot_has_kind(rf, Kind::Reference) {
            return Err(Fault::TypeMismatch);
        }
        let idx = self.peek_u2();
        match rf {
            Slot::Ref(h) => {
                let f = match self.get_field_ref(idx, false) {
                    None => {
                        return Err(Fault::BadField);
                    },
                    Some(f) => f,
                };
                if let Some(e) = self.check_instance(h, f) {
                    return Err(e);
                }
                let _ = self.read_i2();
                self.pop_n(1);
                Ok(())
            },
            _ => {
                let _ = self.read_i2();
                self.pop_n(1);
                self.raise_npe();
                Ok(())
            },
        }
    }

    /// The class that constant pool entry `idx` names, if it is a class reference to an
    /// instance class.
    fn resolve_class(&self, idx: usize) -> (r: Option<usize>)
        ensures
            r matches Some(c) ==> state::resolve_class(self@, idx as int) == Some(c as int),
            r is None ==> state::resolve_class(self@, idx as int) is None,
    {
        if idx >= self.class.cp.len() {
            return None;
        }
        assert(self@.cp[idx as int] == self.class.cp@[idx as int]@);
        match &self.class.cp[idx] {
            Constant::Class(c) => {
                let c = *c;
                if c < self.thread.classes.len() {
                    assert(self@.classes[c as int] == self.thread.classes@[c as int]@);
                    if self.thread.classes[c].kind == ClassKind::InstanceClass {
                        return Some(c);
                    }
                }
                None
            },
            _ => None,
        }
    }

    fn new_impl(&mut self) -> (r: Result<(), Fault>)
        ensures
            outcome(old(self)@, final(self)@, r, state::new_spec(old(self)@)),
    {
        if !self.can_read(2) {
            return Err(Fault::CodeOutOfRange);
        }
        let idx = self.peek_u2();
        let c = match self.resolve_class(idx) {
            None => {
                return Err(Fault::BadClass);
            },
            Some(c) => c,
        };
        let ghost s = self@;
        assert(s.classes[c as int] == self.thread.classes@[c as int]@);
        let n = self.thread.classes[c].field_types.len();
        let mut slots: Vec<Slot> = Vec::new();
        let mut i: usize = 0;
        while i < n
            invariant
                self@ == s,
                c < self.thread.classes@.len(),
                n == s.classes[c as int].field_types.len(),
                s.classes[c as int] == self.thread.classes@[c as int]@,
                i <= n,
                slots@ == Seq::new(
                    i as nat,
                    |k: int| crate::value::default_value(s.classes[c as int].field_types[k]),
                ),
            decreases n - i,
        {
            let t = self.thread.classes[c].field_types[i];
            slots.push(default_slot(t));
            i += 1;
            assert(slots@ =~= Seq::new(
                i as nat,
                |k: int| crate::value::default_value(s.classes[c as int].field_types[k]),
            ));
        }
        let _ = self.read_i2();
        self.thread.classes[c].initialized = true;
        assert(classes_view(self.thread.classes@) =~= s.classes.update(
            c as int,
            ClassView { initialized: true, ..s.classes[c as int] },
        ));
        let o = HeapObject { kind: ObjKind::Instance(c), slots, bytes: Vec::new(), lock: 0 };
        assert(o@ =~= state::new_instance(s, c as int));
        assert(self@ =~= FrameState {
            classes: s.classes.update(c as int, ClassView { initialized: true, ..s.classes[c as int] }),
            ..state::advance(s, 2)
        });
        self.alloc_push(o);
        Ok(())
    }

    fn athrow_impl(&mut self) -> (r: Result<(), Fault>)
        ensures
            outcome(old(self)@, final(self)@, r, state::athrow_spec(old(self)@)),
    {
        if self.stack.len() < 1 {
            return Err(Fault::StackUnderflow);
        }
        let rf = self.top_slot(0);
        if !slot_has_kind(rf, Kind::Reference) {
            return Err(Fault::TypeMismatch);
        }
        match rf {
            Slot::Ref(h) => {
                if h >= self.thread.heap.len() {
                    return Err(Fault::DanglingReference);
                }
                self.pop_n(1);
                self.throw_ref(h);
                Ok(())
            },
            _ => {
                self.pop_n(1);
                self.raise_npe();
                Ok(())
            },
        }
    }

    /// Counts the monitor of a popped object up (`enter`) or down.
    fn monitor(&mut self, enter: bool) -> (r: Result<(), Fault>)
        ensures
            outcome(old(self)@, final(self)@, r, state::monitor_spec(old(self)@, enter)),
    {
        if self.stack.len() < 1 {
            return Err(Fault::StackUnderflow);
        }
        let rf = self.top_slot(0);
        if !slot_has_kind(rf, Kind::Reference) {
            return Err(Fault::TypeMismatch);
        }
        match rf {
            Slot::Ref(h) => {
                if h >= self.thread.heap.len() {
                    return Err(Fault::DanglingReference);
                }
                assert(self@.heap[h as int] == self.thread.heap@[h as int]@);
                let lock = self.thread.heap[h].lock;
                if enter && lock == u64::MAX || !enter && lock == 0 {
                    return Err(Fault::MonitorState);
                }
                self.pop_n(1);
                let ghost s = self@;
                let new_lock = if enter {
                    lock + 1
                } else {
                    lock - 1
                };
                self.thread.heap[h].lock = new_lock;
                assert(heap_view(self.thread.heap@) =~= s.heap.update(
                    h as int,
                    ObjectView { lock: new_lock, ..s.heap[h as int] },
                ));
                assert(self@ =~= state::set_object(
                    s,
                    h as int,
                    ObjectView { lock: new_lock, ..s.heap[h as int] },
                ));
                Ok(())
            },
            _ => {
                self.pop_n(1);
                self.raise_npe();
                Ok(())
            },
        }
    }
}

//byte code impl
impl Frame {
    /// Does nothing.
    pub fn nop(&mut self) -> (r: Result<(), Fault>)
        ensures
            outcome(old(self)@, final(self)@, r, Ok(old(self)@)),
    {
        Ok(())
    }

    /// Pushes `null`.
    pub fn aconst_null(&mut self) -> (r: Result<(), Fault>)
        ensures
            outcome(old(self)@, final(self)@, r, Ok(state::push(old(self)@, Slot::Null))),
    {
        self.push_const(Slot::Null)
    }

    /// Pushes the int -1.
    pub fn iconst_m1(&mut self) -> (r: Result<(), Fault>)
        ensures
            outcome(old(self)@, final(self)@, r, Ok(state::push(old(self)@, Slot::Int(-1i32)))),
    {
        self.push_const(Slot::Int(-1))
    }

    /// Pushes the int 0.
    pub fn iconst_0(&mut self) -> (r: Result<(), Fault>)
        ensures
            outcome(old(self)@, final(self)@, r, Ok(state::push(old(self)@, Slot::Int(0i32)))),
    {
        self.push_const(Slot::Int(0))
    }

    /// Pushes the int 1.
    pub fn iconst_1(&mut self) -> (r: Result<(), Fault>)
        ensures
            outcome(old(self)@, final(self)@, r, Ok(state::push(old(self)@, Slot::Int(1i32)))),
    {
        self.push_const(Slot::Int(1))
    }

    /// Pushes the int 2.
    pub fn iconst_2(&mut self) -> (r: Result<(), Fault>)
        ensures
            outcome(old(self)@, final(self)@, r, Ok(state::push(old(self)@, Slot::Int(2i32)))),
    {
        self.push_const(Slot::Int(2))
    }

    /// Pushes the int 3.
    pub fn iconst_3(&mut self) -> (r: Result<(), Fault>)
        ensures
            outcome(old(self)@, final(self)@, r, Ok(state::push(old(self)@, Slot::Int(3i32)))),
    {
        self.push_const(Slot::Int(3))
    }

    /// Pushes the int 4.
    pub fn iconst_4(&mut self) -> (r: Result<(), Fault>)
        ensures
            outcome(old(self)@, final(self)@, r, Ok(state::push(old(self)@, Slot::Int(4i32)))),
    {
        self.push_const(Slot::Int(4))
    }

    /// Pushes the int 5.
    pub fn iconst_5(&mut self) -> (r: Result<(), Fault>)
        ensures
            outcome(old(self)@, final(self)@, r, Ok(state::push(old(self)@, Slot::Int(5i32)))),
    {
        self.push_const(Slot::Int(5))
    }

    /// Pushes the long 0.
    pub fn lconst_0(&mut self) -> (r: Result<(), Fault>)
        ensures
            outcome(old(self)@, final(self)@, r, Ok(state::push(old(self)@, Slot::Long(0i64)))),
    {
        self.push_const(Slot::Long(0))
    }

    /// Pushes the long 1.
    pub fn lconst_1(&mut self) -> (r: Result<(), Fault>)
        ensures
            outcome(old(self)@, final(self)@, r, Ok(state::push(old(self)@, Slot::Long(1i64)))),
    {
        self.push_const(Slot::Long(1))
    }

    /// Pushes the `float` 0.0 (by its bit pattern).
    pub fn fconst_0(&mut self) -> (r: Result<(), Fault>)
        ensures
            outcome(old(self)@, final(self)@, r, Ok(state::push(old(self)@, Slot::Float(0u32)))),
    {
        self.push_const(Slot::Float(0))
    }

    /// Pushes the `float` 1.0 (by its bit pattern).
    pub fn fconst_1(&mut self) -> (r: Result<(), Fault>)
        ensures
            outcome(old(self)@, final(self)@, r, Ok(state::push(old(self)@, Slot::Float(0x3f80_0000u32)))),
    {
        self.push_const(Slot::Float(0x3f80_0000))
    }

    /// Pushes the `float` 2.0 (by its bit pattern).
    pub fn fconst_2(&mut self) -> (r: Result<(), Fault>)
        ensures
            outcome(old(self)@, final(self)@, r, Ok(state::push(old(self)@, Slot::Float(0x4000_0000u32)))),
    {
        self.push_const(Slot::Float(0x4000_0000))
    }

    /// Pushes the `double` 0.0 (by its bit pattern).
    pub fn dconst_0(&mut self) -> (r: Result<(), Fault>)
        ensures
            outcome(old(self)@, final(self)@, r, Ok(state::push(old(self)@, Slot::Double(0u64)))),
    {
        self.push_const(Slot::Double(0))
    }

    /// Pushes the `double` 1.0 (by its bit pattern).
    pub fn dconst_1(&mut self) -> (r: Result<(), Fault>)
        ensures
            outcome(old(self)@, final(self)@, r, Ok(state::push(old(self)@, Slot::Double(0x3ff0_0000_0000_0000u64)))),
    {
        self.push_const(Slot::Double(0x3ff0_0000_0000_0000))
    }

    /// Pushes the operand byte, zero-extended.
    pub fn bipush(&mut self) -> (r: Result<(), Fault>)
        ensures
            outcome(old(self)@, final(self)@, r, state::bipush_spec(old(self)@)),
    {
        self.bipush_impl()
    }

    /// Pushes the two operand bytes as an unsigned number.
    pub fn sipush(&mut self) -> (r: Result<(), Fault>)
        ensures
            outcome(old(self)@, final(self)@, r, state::sipush_spec(old(self)@)),
    {
        self.sipush_impl()
    }

    /// Pushes the constant pool entry the operand byte names.
    pub fn ldc(&mut self) -> (r: Result<(), Fault>)
        ensures
            outcome(old(self)@, final(self)@, r, state::ldc_spec(old(self)@, 1)),
    {
        self.ldc_impl(1)
    }

    /// Pushes the constant pool entry the two operand bytes name.
    pub fn ldc_w(&mut self) -> (r: Result<(), Fault>)
        ensures
            outcome(old(self)@, final(self)@, r, state::ldc_spec(old(self)@, 2)),
    {
        self.ldc_impl(2)
    }

    /// As `ldc_w`.
    pub fn ldc2_w(&mut self) -> (r: Result<(), Fault>)
        ensures
            outcome(old(self)@, final(self)@, r, state::ldc_spec(old(self)@, 2)),
    {
        self.ldc_w()
    }

    /// Pushes the int local named by the operand byte.
    pub fn iload(&mut self) -> (r: Result<(), Fault>)
        ensures
            outcome(old(self)@, final(self)@, r, state::load_op_spec(old(self)@, Kind::Int)),
    {
        self.load_op(Kind::Int)
    }

    /// Pushes the long local named by the operand byte.
    pub fn lload(&mut self) -> (r: Result<(), Fault>)
        ensures
            outcome(old(self)@, final(self)@, r, state::load_op_spec(old(self)@, Kind::Long)),
    {
        self.load_op(Kind::Long)
    }

    /// Pushes the float local named by the operand byte.
    pub fn fload(&mut self) -> (r: Result<(), Fault>)
        ensures
            outcome(old(self)@, final(self)@, r, state::load_op_spec(old(self)@, Kind::Float)),
    {
        self.load_op(Kind::Float)
    }

    /// Pushes the double local named by the operand byte.
    pub fn dload(&mut self) -> (r: Result<(), Fault>)
        ensures
            outcome(old(self)@, final(self)@, r, state::load_op_spec(old(self)@, Kind::Double)),
    {
        self.load_op(Kind::Double)
    }

    /// Pushes the reference local named by the operand byte.
    pub fn aload(&mut self) -> (r: Result<(), Fault>)
        ensures
            outcome(old(self)@, final(self)@, r, state::load_op_spec(old(self)@, Kind::Reference)),
    {
        self.load_op(Kind::Reference)
    }

    /// Pushes the int local 0.
    pub fn iload_0(&mut self) -> (r: Result<(), Fault>)
        ensures
            outcome(old(self)@, final(self)@, r, state::load_spec(old(self)@, Kind::Int, 0)),
    {
        self.load(Kind::Int, 0)
    }

    /// Pushes the int local 1.
    pub fn iload_1(&mut self) -> (r: Result<(), Fault>)
        ensures
            outcome(old(self)@, final(self)@, r, state::load_spec(old(self)@, Kind::Int, 1)),
    {
        self.load(Kind::Int, 1)
    }

    /// Pushes the int local 2.
    pub fn iload_2(&mut self) -> (r: Result<(), Fault>)
        ensures
            outcome(old(self)@, final(self)@, r, state::load_spec(old(self)@, Kind::Int, 2)),
    {
        self.load(Kind::Int, 2)
    }

    /// Pushes the int local 3.
    pub fn iload_3(&mut self) -> (r: Result<(), Fault>)
        ensures
            outcome(old(self)@, final(self)@, r, state::load_spec(old(self)@, Kind::Int, 3)),
    {
        self.load(Kind::Int, 3)
    }

    /// Pushes the long local 0.
    pub fn lload_0(&mut self) -> (r: Result<(), Fault>)
        ensures
            outcome(old(self)@, final(self)@, r, state::load_spec(old(self)@, Kind::Long, 0)),
    {
        self.load(Kind::Long, 0)
    }

    /// Pushes the long local 1.
    pub fn lload_1(&mut self) -> (r: Result<(), Fault>)
        ensures
            outcome(old(self)@, final(self)@, r, state::load_spec(old(self)@, Kind::Long, 1)),
    {
        self.load(Kind::Long, 1)
    }

    /// Pushes the long local 2.
    pub fn lload_2(&mut self) -> (r: Result<(), Fault>)
        ensures
            outcome(old(self)@, final(self)@, r, state::load_spec(old(self)@, Kind::Long, 2)),
    {
        self.load(Kind::Long, 2)
    }

    /// Pushes the long local 3.
    pub fn lload_3(&mut self) -> (r: Result<(), Fault>)
        ensures
            outcome(old(self)@, final(self)@, r, state::load_spec(old(self)@, Kind::Long, 3)),
    {
        self.load(Kind::Long, 3)
    }

    /// Pushes the float local 0.
    pub fn fload_0(&mut self) -> (r: Result<(), Fault>)
        ensures
            outcome(old(self)@, final(self)@, r, state::load_spec(old(self)@, Kind::Float, 0)),
    {
        self.load(Kind::Float, 0)
    }

    /// Pushes the float local 1.
    pub fn fload_1(&mut self) -> (r: Result<(), Fault>)
        ensures
            outcome(old(self)@, final(self)@, r, state::load_spec(old(self)@, Kind::Float, 1)),
    {
        self.load(Kind::Float, 1)
    }

    /// Pushes the float local 2.
    pub fn fload_2(&mut self) -> (r: Result<(), Fault>)
        ensures
            outcome(old(self)@, final(self)@, r, state::load_spec(old(self)@, Kind::Float, 2)),
    {
        self.load(Kind::Float, 2)
    }

    /// Pushes the float local 3.
    pub fn fload_3(&mut self) -> (r: Result<(), Fault>)
        ensures
            outcome(old(self)@, final(self)@, r, state::load_spec(old(self)@, Kind::Float, 3)),
    {
        self.load(Kind::Float, 3)
    }

    /// Pushes the double local 0.
    pub fn dload_0(&mut self) -> (r: Result<(), Fault>)
        ensures
            outcome(old(self)@, final(self)@, r, state::load_spec(old(self)@, Kind::Double, 0)),
    {
        self.load(Kind::Double, 0)
    }

    /// Pushes the double local 1.
    pub fn dload_1(&mut self) -> (r: Result<(), Fault>)
        ensures
            outcome(old(self)@, final(self)@, r, state::load_spec(old(self)@, Kind::Double, 1)),
    {
        self.load(Kind::Double, 1)
    }

    /// Pushes the double local 2.
    pub fn dload_2(&mut self) -> (r: Result<(), Fault>)
        ensures
            outcome(old(self)@, final(self)@, r, state::load_spec(old(self)@, Kind::Double, 2)),
    {
        self.load(Kind::Double, 2)
    }

    /// Pushes the double local 3.
    pub fn dload_3(&mut self) -> (r: Result<(), Fault>)
        ensures
            outcome(old(self)@, final(self)@, r, state::load_spec(old(self)@, Kind::Double, 3)),
    {
        self.load(Kind::Double, 3)
    }

    /// Pushes the reference local 0.
    pub fn aload_0(&mut self) -> (r: Result<(), Fault>)
        ensures
            outcome(old(self)@, final(self)@, r, state::load_spec(old(self)@, Kind::Reference, 0)),
    {
        self.load(Kind::Reference, 0)
    }

    /// Pushes the reference local 1.
    pub fn aload_1(&mut self) -> (r: Result<(), Fault>)
        ensures
            outcome(old(self)@, final(self)@, r, state::load_spec(old(self)@, Kind::Reference, 1)),
    {
        self.load(Kind::Reference, 1)
    }

    /// Pushes the reference local 2.
    pub fn aload_2(&mut self) -> (r: Result<(), Fault>)
        ensures
            outcome(old(self)@, final(self)@, r, state::load_spec(old(self)@, Kind::Reference, 2)),
    {
        self.load(Kind::Reference, 2)
    }

    /// Pushes the reference local 3.
    pub fn aload_3(&mut self) -> (r: Result<(), Fault>)
        ensures
            outcome(old(self)@, final(self)@, r, state::load_spec(old(self)@, Kind::Reference, 3)),
    {
        self.load(Kind::Reference, 3)
    }

    /// Pops an index and an array reference, and pushes the int element.
    pub fn iaload(&mut self) -> (r: Result<(), Fault>)
        ensures
            outcome(old(self)@, final(self)@, r, state::array_load_spec(old(self)@, Kind::Int)),
    {
        self.array_load(Kind::Int)
    }

    /// Pops an index and an array reference, and pushes the long element.
    pub fn laload(&mut self) -> (r: Result<(), Fault>)
        ensures
            outcome(old(self)@, final(self)@, r, state::array_load_spec(old(self)@, Kind::Long)),
    {
        self.array_load(Kind::Long)
    }

    /// Pops an index and an array reference, and pushes the float element.
    pub fn faload(&mut self) -> (r: Result<(), Fault>)
        ensures
            outcome(old(self)@, final(self)@, r, state::array_load_spec(old(self)@, Kind::Float)),
    {
        self.array_load(Kind::Float)
    }

    /// Pops an index and an array reference, and pushes the double element.
    pub fn daload(&mut self) -> (r: Result<(), Fault>)
        ensures
            outcome(old(self)@, final(self)@, r, state::array_load_spec(old(self)@, Kind::Double)),
    {
        self.array_load(Kind::Double)
    }

    /// Pushes an array element, whatever it holds.
    pub fn aaload(&mut self) -> (r: Result<(), Fault>)
        ensures
            outcome(old(self)@, final(self)@, r, state::array_load_spec(old(self)@, Kind::Any)),
    {
        self.array_load(Kind::Any)
    }

    /// As `iaload`.
    pub fn saload(&mut self) -> (r: Result<(), Fault>)
        ensures
            outcome(old(self)@, final(self)@, r, state::array_load_spec(old(self)@, Kind::Int)),
    {
        self.iaload()
    }

    /// As `iaload`.
    pub fn caload(&mut self) -> (r: Result<(), Fault>)
        ensures
            outcome(old(self)@, final(self)@, r, state::array_load_spec(old(self)@, Kind::Int)),
    {
        self.iaload()
    }

    /// As `iaload`.
    pub fn baload(&mut self) -> (r: Result<(), Fault>)
        ensures
            outcome(old(self)@, final(self)@, r, state::array_load_spec(old(self)@, Kind::Int)),
    {
        self.iaload()
    }

    /// Pops a int into the local named by the operand byte.
    pub fn istore(&mut self) -> (r: Result<(), Fault>)
        ensures
            outcome(old(self)@, final(self)@, r, state::store_op_spec(old(self)@, Kind::Int)),
    {
        self.store_op(Kind::Int)
    }

    /// Pops a long into the local named by the operand byte.
    pub fn lstore(&mut self) -> (r: Result<(), Fault>)
        ensures
            outcome(old(self)@, final(self)@, r, state::store_op_spec(old(self)@, Kind::Long)),
    {
        self.store_op(Kind::Long)
    }

    /// Pops a float into the local named by the operand byte.
    pub fn fstore(&mut self) -> (r: Result<(), Fault>)
        ensures
            outcome(old(self)@, final(self)@, r, state::store_op_spec(old(self)@, Kind::Float)),
    {
        self.store_op(Kind::Float)
    }

    /// Pops a double into the local named by the operand byte.
    pub fn dstore(&mut self) -> (r: Result<(), Fault>)
        ensures
            outcome(old(self)@, final(self)@, r, state::store_op_spec(old(self)@, Kind::Double)),
    {
        self.store_op(Kind::Double)
    }

    /// Pops a reference into the local named by the operand byte.
    pub fn astore(&mut self) -> (r: Result<(), Fault>)
        ensures
            outcome(old(self)@, final(self)@, r, state::store_op_spec(old(self)@, Kind::Reference)),
    {
        self.store_op(Kind::Reference)
    }

    /// Pops a int into local 0.
    pub fn istore_0(&mut self) -> (r: Result<(), Fault>)
        ensures
            outcome(old(self)@, final(self)@, r, state::store_spec(old(self)@, Kind::Int, 0)),
    {
        self.store(Kind::Int, 0)
    }

    /// Pops a int into local 1.
    pub fn istore_1(&mut self) -> (r: Result<(), Fault>)
        ensures
            outcome(old(self)@, final(self)@, r, state::store_spec(old(self)@, Kind::Int, 1)),
    {
        self.store(Kind::Int, 1)
    }

    /// Pops a int into local 2.
    pub fn istore_2(&mut self) -> (r: Result<(), Fault>)
        ensures
            outcome(old(self)@, final(self)@, r, state::store_spec(old(self)@, Kind::Int, 2)),
    {
        self.store(Kind::Int, 2)
    }

    /// Pops a int into local 3.
    pub fn istore_3(&mut self) -> (r: Result<(), Fault>)
        ensures
            outcome(old(self)@, final(self)@, r, state::store_spec(old(self)@, Kind::Int, 3)),
    {
        self.store(Kind::Int, 3)
    }

    /// Pops a long into local 0.
    pub fn lstore_0(&mut self) -> (r: Result<(), Fault>)
        ensures
            outcome(old(self)@, final(self)@, r, state::store_spec(old(self)@, Kind::Long, 0)),
    {
        self.store(Kind::Long, 0)
    }

    /// Pops a long into local 1.
    pub fn lstore_1(&mut self) -> (r: Result<(), Fault>)
        ensures
            outcome(old(self)@, final(self)@, r, state::store_spec(old(self)@, Kind::Long, 1)),
    {
        self.store(Kind::Long, 1)
    }

    /// Pops a long into local 2.
    pub fn lstore_2(&mut self) -> (r: Result<(), Fault>)
        ensures
            outcome(old(self)@, final(self)@, r, state::store_spec(old(self)@, Kind::Long, 2)),
    {
        self.store(Kind::Long, 2)
    }

    /// Pops a long into local 3.
    pub fn lstore_3(&mut self) -> (r: Result<(), Fault>)
        ensures
            outcome(old(self)@, final(self)@, r, state::store_spec(old(self)@, Kind::Long, 3)),
    {
        self.store(Kind::Long, 3)
    }

    /// Pops a float into local 0.
    pub fn fstore_0(&mut self) -> (r: Result<(), Fault>)
        ensures
            outcome(old(self)@, final(self)@, r, state::store_spec(old(self)@, Kind::Float, 0)),
    {
        self.store(Kind::Float, 0)
    }

    /// Pops a float into local 1.
    pub fn fstore_1(&mut self) -> (r: Result<(), Fault>)
        ensures
            outcome(old(self)@, final(self)@, r, state::store_spec(old(self)@, Kind::Float, 1)),
    {
        self.store(Kind::Float, 1)
    }

    /// Pops a float into local 2.
    pub fn fstore_2(&mut self) -> (r: Result<(), Fault>)
        ensures
            outcome(old(self)@, final(self)@, r, state::store_spec(old(self)@, Kind::Float, 2)),
    {
        self.store(Kind::Float, 2)
    }

    /// Pops a float into local 3.
    pub fn fstore_3(&mut self) -> (r: Result<(), Fault>)
        ensures
            outcome(old(self)@, final(self)@, r, state::store_spec(old(self)@, Kind::Float, 3)),
    {
        self.store(Kind::Float, 3)
    }

    /// Pops a double into local 0.
    pub fn dstore_0(&mut self) -> (r: Result<(), Fault>)
        ensures
            outcome(old(self)@, final(self)@, r, state::store_spec(old(self)@, Kind::Double, 0)),
    {
        self.store(Kind::Double, 0)
    }

    /// Pops a double into local 1.
    pub fn dstore_1(&mut self) -> (r: Result<(), Fault>)
        ensures
            outcome(old(self)@, final(self)@, r, state::store_spec(old(self)@, Kind::Double, 1)),
    {
        self.store(Kind::Double, 1)
    }

    /// Pops a double into local 2.
    pub fn dstore_2(&mut self) -> (r: Result<(), Fault>)
        ensures
            outcome(old(self)@, final(self)@, r, state::store_spec(old(self)@, Kind::Double, 2)),
    {
        self.store(Kind::Double, 2)
    }

    /// Pops a double into local 3.
    pub fn dstore_3(&mut self) -> (r: Result<(), Fault>)
        ensures
            outcome(old(self)@, final(self)@, r, state::store_spec(old(self)@, Kind::Double, 3)),
    {
        self.store(Kind::Double, 3)
    }

    /// Pops a reference into local 0.
    pub fn astore_0(&mut self) -> (r: Result<(), Fault>)
        ensures
            outcome(old(self)@, final(self)@, r, state::store_spec(old(self)@, Kind::Reference, 0)),
    {
        self.store(Kind::Reference, 0)
    }

    /// Pops a reference into local 1.
    pub fn astore_1(&mut self) -> (r: Result<(), Fault>)
        ensures
            outcome(old(self)@, final(self)@, r, state::store_spec(old(self)@, Kind::Reference, 1)),
    {
        self.store(Kind::Reference, 1)
    }

    /// Pops a reference into local 2.
    pub fn astore_2(&mut self) -> (r: Result<(), Fault>)
        ensures
            outcome(old(self)@, final(self)@, r, state::store_spec(old(self)@, Kind::Reference, 2)),
    {
        self.store(Kind::Reference, 2)
    }

    /// Pops a reference into local 3.
    pub fn astore_3(&mut self) -> (r: Result<(), Fault>)
        ensures
            outcome(old(self)@, final(self)@, r, state::store_spec(old(self)@, Kind::Reference, 3)),
    {
        self.store(Kind::Reference, 3)
    }

    /// As `iastore`.
    pub fn bastore(&mut self) -> (r: Result<(), Fault>)
        ensures
            outcome(old(self)@, final(self)@, r, state::array_store_spec(old(self)@, Kind::Int)),
    {
        self.iastore()
    }

    /// As `iastore`.
    pub fn castore(&mut self) -> (r: Result<(), Fault>)
        ensures
            outcome(old(self)@, final(self)@, r, state::array_store_spec(old(self)@, Kind::Int)),
    {
        self.iastore()
    }

    /// As `iastore`.
    pub fn sastore(&mut self) -> (r: Result<(), Fault>)
        ensures
            outcome(old(self)@, final(self)@, r, state::array_store_spec(old(self)@, Kind::Int)),
    {
        self.iastore()
    }

    /// Pops a int, an index and an array reference, and stores the int.
    pub fn iastore(&mut self) -> (r: Result<(), Fault>)
        ensures
            outcome(old(self)@, final(self)@, r, state::array_store_spec(old(self)@, Kind::Int)),
    {
        self.array_store(Kind::Int)
    }

    /// Pops a long, an index and an array reference, and stores the long.
    pub fn lastore(&mut self) -> (r: Result<(), Fault>)
        ensures
            outcome(old(self)@, final(self)@, r, state::array_store_spec(old(self)@, Kind::Long)),
    {
        self.array_store(Kind::Long)
    }

    /// Pops a float, an index and an array reference, and stores the float.
    pub fn fastore(&mut self) -> (r: Result<(), Fault>)
        ensures
            outcome(old(self)@, final(self)@, r, state::array_store_spec(old(self)@, Kind::Float)),
    {
        self.array_store(Kind::Float)
    }

    /// Pops a double, an index and an array reference, and stores the double.
    pub fn dastore(&mut self) -> (r: Result<(), Fault>)
        ensures
            outcome(old(self)@, final(self)@, r, state::array_store_spec(old(self)@, Kind::Double)),
    {
        self.array_store(Kind::Double)
    }

    /// Pops an index (the top), an array reference and then, for an index in bounds, the reference to store.
    pub fn aastore(&mut self) -> (r: Result<(), Fault>)
        ensures
            outcome(old(self)@, final(self)@, r, state::aastore_spec(old(self)@)),
    {
        self.aastore_impl()
    }

    /// Drops the top slot.
    pub fn pop(&mut self) -> (r: Result<(), Fault>)
        ensures
            outcome(old(self)@, final(self)@, r, state::shuffle_spec(old(self)@, 1, Seq::<usize>::empty())),
    {
        let pattern: Vec<usize> = Vec::new();
        assert(pattern@ =~= Seq::<usize>::empty());
        self.shuffle(1, pattern)
    }

    /// Drops the two topmost slots.
    pub fn pop2(&mut self) -> (r: Result<(), Fault>)
        ensures
            outcome(old(self)@, final(self)@, r, state::shuffle_spec(old(self)@, 2, Seq::<usize>::empty())),
    {
        let pattern: Vec<usize> = Vec::new();
        assert(pattern@ =~= Seq::<usize>::empty());
        self.shuffle(2, pattern)
    }

    /// Duplicates the top slot.
    pub fn dup(&mut self) -> (r: Result<(), Fault>)
        ensures
            outcome(old(self)@, final(self)@, r, state::shuffle_spec(old(self)@, 1, seq![0usize, 0])),
    {
        let pattern: Vec<usize> = vec![0usize, 0];
        assert(pattern@ =~= seq![0usize, 0]);
        self.shuffle(1, pattern)
    }

    /// Duplicates the top slot below the second one.
    pub fn dup_x1(&mut self) -> (r: Result<(), Fault>)
        ensures
            outcome(old(self)@, final(self)@, r, state::shuffle_spec(old(self)@, 2, seq![0usize, 1, 0])),
    {
        let pattern: Vec<usize> = vec![0usize, 1, 0];
        assert(pattern@ =~= seq![0usize, 1, 0]);
        self.shuffle(2, pattern)
    }

    /// Duplicates the top slot below the third one.
    pub fn dup_x2(&mut self) -> (r: Result<(), Fault>)
        ensures
            outcome(old(self)@, final(self)@, r, state::shuffle_spec(old(self)@, 3, seq![0usize, 2, 1, 0])),
    {
        let pattern: Vec<usize> = vec![0usize, 2, 1, 0];
        assert(pattern@ =~= seq![0usize, 2, 1, 0]);
        self.shuffle(3, pattern)
    }

    /// Duplicates the two topmost slots.
    pub fn dup2(&mut self) -> (r: Result<(), Fault>)
        ensures
            outcome(old(self)@, final(self)@, r, state::shuffle_spec(old(self)@, 2, seq![1usize, 0, 1, 0])),
    {
        let pattern: Vec<usize> = vec![1usize, 0, 1, 0];
        assert(pattern@ =~= seq![1usize, 0, 1, 0]);
        self.shuffle(2, pattern)
    }

    /// Duplicates the two topmost slots below the third one.
    pub fn dup2_x1(&mut self) -> (r: Result<(), Fault>)
        ensures
            outcome(old(self)@, final(self)@, r, state::shuffle_spec(old(self)@, 3, seq![1usize, 0, 2, 1, 0])),
    {
        let pattern: Vec<usize> = vec![1usize, 0, 2, 1, 0];
        assert(pattern@ =~= seq![1usize, 0, 2, 1, 0]);
        self.shuffle(3, pattern)
    }

    /// Duplicates the two topmost slots below the fourth one.
    pub fn dup2_x2(&mut self) -> (r: Result<(), Fault>)
        ensures
            outcome(old(self)@, final(self)@, r, state::shuffle_spec(old(self)@, 4, seq![1usize, 0, 3, 2, 1, 0])),
    {
        let pattern: Vec<usize> = vec![1usize, 0, 3, 2, 1, 0];
        assert(pattern@ =~= seq![1usize, 0, 3, 2, 1, 0]);
        self.shuffle(4, pattern)
    }

    /// Exchanges the two topmost slots.
    pub fn swap(&mut self) -> (r: Result<(), Fault>)
        ensures
            outcome(old(self)@, final(self)@, r, state::shuffle_spec(old(self)@, 2, seq![0usize, 1])),
    {
        let pattern: Vec<usize> = vec![0usize, 1];
        assert(pattern@ =~= seq![0usize, 1]);
        self.shuffle(2, pattern)
    }

    /// Pops two ints and adds, wrapping.
    pub fn iadd(&mut self) -> (r: Result<(), Fault>)
        ensures
            outcome(old(self)@, final(self)@, r, state::int_binop_spec(old(self)@, opcode::IADD)),
    {
        self.int_binop(opcode::IADD)
    }

    /// Pops two ints and subtracts, wrapping.
    pub fn isub(&mut self) -> (r: Result<(), Fault>)
        ensures
            outcome(old(self)@, final(self)@, r, state::int_binop_spec(old(self)@, opcode::ISUB)),
    {
        self.int_binop(opcode::ISUB)
    }

    /// Pops two ints and multiplies, wrapping.
    pub fn imul(&mut self) -> (r: Result<(), Fault>)
        ensures
            outcome(old(self)@, final(self)@, r, state::int_binop_spec(old(self)@, opcode::IMUL)),
    {
        self.int_binop(opcode::IMUL)
    }

    /// Pops two ints and divides, truncating (a zero divisor raises an `ArithmeticException`).
    pub fn idiv(&mut self) -> (r: Result<(), Fault>)
        ensures
            outcome(old(self)@, final(self)@, r, state::int_binop_spec(old(self)@, opcode::IDIV)),
    {
        self.int_binop(opcode::IDIV)
    }

    /// Pops two ints and takes the remainder of truncating division (a zero divisor raises an `ArithmeticException`).
    pub fn irem(&mut self) -> (r: Result<(), Fault>)
        ensures
            outcome(old(self)@, final(self)@, r, state::int_binop_spec(old(self)@, opcode::IREM)),
    {
        self.int_binop(opcode::IREM)
    }

    /// Pops two ints and shifts left by the low five bits of the top.
    pub fn ishl(&mut self) -> (r: Result<(), Fault>)
        ensures
            outcome(old(self)@, final(self)@, r, state::int_binop_spec(old(self)@, opcode::ISHL)),
    {
        self.int_binop(opcode::ISHL)
    }

    /// Pops two ints and shifts right, keeping the sign, by the low five bits of the top.
    pub fn ishr(&mut self) -> (r: Result<(), Fault>)
        ensures
            outcome(old(self)@, final(self)@, r, state::int_binop_spec(old(self)@, opcode::ISHR)),
    {
        self.int_binop(opcode::ISHR)
    }

    /// Pops two ints and shifts right, filling with zeros, by the low five bits of the top.
    pub fn iushr(&mut self) -> (r: Result<(), Fault>)
        ensures
            outcome(old(self)@, final(self)@, r, state::int_binop_spec(old(self)@, opcode::IUSHR)),
    {
        self.int_binop(opcode::IUSHR)
    }

    /// Pops two ints and takes the bitwise and.
    pub fn iand(&mut self) -> (r: Result<(), Fault>)
        ensures
            outcome(old(self)@, final(self)@, r, state::int_binop_spec(old(self)@, opcode::IAND)),
    {
        self.int_binop(opcode::IAND)
    }

    /// Pops two ints and takes the bitwise or.
    pub fn ior(&mut self) -> (r: Result<(), Fault>)
        ensures
            outcome(old(self)@, final(self)@, r, state::int_binop_spec(old(self)@, opcode::IOR)),
    {
        self.int_binop(opcode::IOR)
    }

    /// Pops two ints and takes the bitwise exclusive or.
    pub fn ixor(&mut self) -> (r: Result<(), Fault>)
        ensures
            outcome(old(self)@, final(self)@, r, state::int_binop_spec(old(self)@, opcode::IXOR)),
    {
        self.int_binop(opcode::IXOR)
    }

    /// Pops two longs and adds, wrapping.
    pub fn ladd(&mut self) -> (r: Result<(), Fault>)
        ensures
            outcome(old(self)@, final(self)@, r, state::long_binop_spec(old(self)@, opcode::LADD)),
    {
        self.long_binop(opcode::LADD)
    }

    /// Pops two longs and subtracts, wrapping.
    pub fn lsub(&mut self) -> (r: Result<(), Fault>)
        ensures
            outcome(old(self)@, final(self)@, r, state::long_binop_spec(old(self)@, opcode::LSUB)),
    {
        self.long_binop(opcode::LSUB)
    }

    /// Pops two longs and multiplies, wrapping.
    pub fn lmul(&mut self) -> (r: Result<(), Fault>)
        ensures
            outcome(old(self)@, final(self)@, r, state::long_binop_spec(old(self)@, opcode::LMUL)),
    {
        self.long_binop(opcode::LMUL)
    }

    /// Pops two longs and divides, truncating (a zero divisor raises an `ArithmeticException`).
    pub fn ldiv(&mut self) -> (r: Result<(), Fault>)
        ensures
            outcome(old(self)@, final(self)@, r, state::long_binop_spec(old(self)@, opcode::LDIV)),
    {
        self.long_binop(opcode::LDIV)
    }

    /// Pops two longs and takes the remainder of truncating division (a zero divisor raises an `ArithmeticException`).
    pub fn lrem(&mut self) -> (r: Result<(), Fault>)
        ensures
            outcome(old(self)@, final(self)@, r, state::long_binop_spec(old(self)@, opcode::LREM)),
    {
        self.long_binop(opcode::LREM)
    }

    /// Pops two longs and takes the bitwise and.
    pub fn land(&mut self) -> (r: Result<(), Fault>)
        ensures
            outcome(old(self)@, final(self)@, r, state::long_binop_spec(old(self)@, opcode::LAND)),
    {
        self.long_binop(opcode::LAND)
    }

    /// Pops two longs and takes the bitwise or.
    pub fn lor(&mut self) -> (r: Result<(), Fault>)
        ensures
            outcome(old(self)@, final(self)@, r, state::long_binop_spec(old(self)@, opcode::LOR)),
    {
        self.long_binop(opcode::LOR)
    }

    /// Pops two longs and takes the bitwise exclusive or.
    pub fn lxor(&mut self) -> (r: Result<(), Fault>)
        ensures
            outcome(old(self)@, final(self)@, r, state::long_binop_spec(old(self)@, opcode::LXOR)),
    {
        self.long_binop(opcode::LXOR)
    }

    /// Pops an int count and a long, and shifts the long left by the count's low six bits.
    pub fn lshl(&mut self) -> (r: Result<(), Fault>)
        ensures
            outcome(old(self)@, final(self)@, r, state::long_shift_spec(old(self)@, opcode::LSHL)),
    {
        self.long_shift_op(opcode::LSHL)
    }

    /// Pops an int count and a long, and shifts the long right, keeping the sign, by the count's low six bits.
    pub fn lshr(&mut self) -> (r: Result<(), Fault>)
        ensures
            outcome(old(self)@, final(self)@, r, state::long_shift_spec(old(self)@, opcode::LSHR)),
    {
        self.long_shift_op(opcode::LSHR)
    }

    /// Pops an int count and a long, and shifts the long right, filling with zeros, by the count's low six bits.
    pub fn lushr(&mut self) -> (r: Result<(), Fault>)
        ensures
            outcome(old(self)@, final(self)@, r, state::long_shift_spec(old(self)@, opcode::LUSHR)),
    {
        self.long_shift_op(opcode::LUSHR)
    }

    /// A deprecated instruction: refused.
    pub fn frem(&mut self) -> (r: Result<(), Fault>)
        ensures
            outcome(old(self)@, final(self)@, r, Err(Fault::Deprecated(opcode::FREM))),
    {
        Err(Fault::Deprecated(opcode::FREM))
    }

    /// A deprecated instruction: refused.
    pub fn drem(&mut self) -> (r: Result<(), Fault>)
        ensures
            outcome(old(self)@, final(self)@, r, Err(Fault::Deprecated(opcode::DREM))),
    {
        Err(Fault::Deprecated(opcode::DREM))
    }

    /// A deprecated instruction: refused.
    pub fn fneg(&mut self) -> (r: Result<(), Fault>)
        ensures
            outcome(old(self)@, final(self)@, r, Err(Fault::Deprecated(opcode::FNEG))),
    {
        Err(Fault::Deprecated(opcode::FNEG))
    }

    /// A deprecated instruction: refused.
    pub fn dneg(&mut self) -> (r: Result<(), Fault>)
        ensures
            outcome(old(self)@, final(self)@, r, Err(Fault::Deprecated(opcode::DNEG))),
    {
        Err(Fault::Deprecated(opcode::DNEG))
    }

    /// A deprecated instruction: refused.
    pub fn jsr(&mut self) -> (r: Result<(), Fault>)
        ensures
            outcome(old(self)@, final(self)@, r, Err(Fault::Deprecated(opcode::JSR))),
    {
        Err(Fault::Deprecated(opcode::JSR))
    }

    /// A deprecated instruction: refused.
    pub fn ret(&mut self) -> (r: Result<(), Fault>)
        ensures
            outcome(old(self)@, final(self)@, r, Err(Fault::Deprecated(opcode::RET))),
    {
        Err(Fault::Deprecated(opcode::RET))
    }

    /// A deprecated instruction: refused.
    pub fn wide(&mut self) -> (r: Result<(), Fault>)
        ensures
            outcome(old(self)@, final(self)@, r, Err(Fault::Deprecated(opcode::WIDE))),
    {
        Err(Fault::Deprecated(opcode::WIDE))
    }

    /// A deprecated instruction: refused.
    pub fn goto_w(&mut self) -> (r: Result<(), Fault>)
        ensures
            outcome(old(self)@, final(self)@, r, Err(Fault::Deprecated(opcode::GOTO_W))),
    {
        Err(Fault::Deprecated(opcode::GOTO_W))
    }

    /// A deprecated instruction: refused.
    pub fn jsr_w(&mut self) -> (r: Result<(), Fault>)
        ensures
            outcome(old(self)@, final(self)@, r, Err(Fault::Deprecated(opcode::JSR_W))),
    {
        Err(Fault::Deprecated(opcode::JSR_W))
    }

    /// Negates the int on top, wrapping.
    pub fn ineg(&mut self) -> (r: Result<(), Fault>)
        ensures
            outcome(old(self)@, final(self)@, r, state::unary_spec(old(self)@, opcode::INEG)),
    {
        self.unary(opcode::INEG)
    }

    /// Negates the long on top, wrapping.
    pub fn lneg(&mut self) -> (r: Result<(), Fault>)
        ensures
            outcome(old(self)@, final(self)@, r, state::unary_spec(old(self)@, opcode::LNEG)),
    {
        self.unary(opcode::LNEG)
    }

    /// Widens the int on top to a long.
    pub fn i2l(&mut self) -> (r: Result<(), Fault>)
        ensures
            outcome(old(self)@, final(self)@, r, state::unary_spec(old(self)@, opcode::I2L)),
    {
        self.unary(opcode::I2L)
    }

    /// Truncates the long on top to an int.
    pub fn l2i(&mut self) -> (r: Result<(), Fault>)
        ensures
            outcome(old(self)@, final(self)@, r, state::unary_spec(old(self)@, opcode::L2I)),
    {
        self.unary(opcode::L2I)
    }

    /// Truncates the int on top to a byte, sign-extended.
    pub fn i2b(&mut self) -> (r: Result<(), Fault>)
        ensures
            outcome(old(self)@, final(self)@, r, state::unary_spec(old(self)@, opcode::I2B)),
    {
        self.unary(opcode::I2B)
    }

    /// Truncates the int on top to a char, zero-extended.
    pub fn i2c(&mut self) -> (r: Result<(), Fault>)
        ensures
            outcome(old(self)@, final(self)@, r, state::unary_spec(old(self)@, opcode::I2C)),
    {
        self.unary(opcode::I2C)
    }

    /// Truncates the int on top to a short, sign-extended.
    pub fn i2s(&mut self) -> (r: Result<(), Fault>)
        ensures
            outcome(old(self)@, final(self)@, r, state::unary_spec(old(self)@, opcode::I2S)),
    {
        self.unary(opcode::I2S)
    }

    /// Adds the second operand byte, zero-extended, to the int local named by the first, wrapping.
    pub fn iinc(&mut self) -> (r: Result<(), Fault>)
        ensures
            outcome(old(self)@, final(self)@, r, state::iinc_spec(old(self)@)),
    {
        self.iinc_impl()
    }

    /// Pops two longs and pushes -1, 1 or 0 as the top is greater than, less than or equal to the other.
    pub fn lcmp(&mut self) -> (r: Result<(), Fault>)
        ensures
            outcome(old(self)@, final(self)@, r, state::lcmp_spec(old(self)@)),
    {
        self.lcmp_impl()
    }

    /// Pops an int and branches if it is 0.
    pub fn ifeq(&mut self) -> (r: Result<(), Fault>)
        ensures
            outcome(old(self)@, final(self)@, r, state::if_spec(old(self)@, opcode::IFEQ)),
    {
        self.if_int(opcode::IFEQ)
    }

    /// Pops an int and branches if it is not 0.
    pub fn ifne(&mut self) -> (r: Result<(), Fault>)
        ensures
            outcome(old(self)@, final(self)@, r, state::if_spec(old(self)@, opcode::IFNE)),
    {
        self.if_int(opcode::IFNE)
    }

    /// Pops an int and branches if it is below 0.
    pub fn iflt(&mut self) -> (r: Result<(), Fault>)
        ensures
            outcome(old(self)@, final(self)@, r, state::if_spec(old(self)@, opcode::IFLT)),
    {
        self.if_int(opcode::IFLT)
    }

    /// Pops an int and branches if it is 0 or above.
    pub fn ifge(&mut self) -> (r: Result<(), Fault>)
        ensures
            outcome(old(self)@, final(self)@, r, state::if_spec(old(self)@, opcode::IFGE)),
    {
        self.if_int(opcode::IFGE)
    }

    /// Pops an int and branches if it is above 0.
    pub fn ifgt(&mut self) -> (r: Result<(), Fault>)
        ensures
            outcome(old(self)@, final(self)@, r, state::if_spec(old(self)@, opcode::IFGT)),
    {
        self.if_int(opcode::IFGT)
    }

    /// Pops an int and branches if it is 0 or below.
    pub fn ifle(&mut self) -> (r: Result<(), Fault>)
        ensures
            outcome(old(self)@, final(self)@, r, state::if_spec(old(self)@, opcode::IFLE)),
    {
        self.if_int(opcode::IFLE)
    }

    /// Pops two ints and branches if are equal.
    pub fn if_icmpeq(&mut self) -> (r: Result<(), Fault>)
        ensures
            outcome(old(self)@, final(self)@, r, state::if_icmp_spec(old(self)@, opcode::IF_ICMPEQ)),
    {
        self.if_icmp(opcode::IF_ICMPEQ)
    }

    /// Pops two ints and branches if differ.
    pub fn if_icmpne(&mut self) -> (r: Result<(), Fault>)
        ensures
            outcome(old(self)@, final(self)@, r, state::if_icmp_spec(old(self)@, opcode::IF_ICMPNE)),
    {
        self.if_icmp(opcode::IF_ICMPNE)
    }

    /// Pops two ints and branches if the deeper is less than the top.
    pub fn if_icmplt(&mut self) -> (r: Result<(), Fault>)
        ensures
            outcome(old(self)@, final(self)@, r, state::if_icmp_spec(old(self)@, opcode::IF_ICMPLT)),
    {
        self.if_icmp(opcode::IF_ICMPLT)
    }

    /// Pops two ints and branches if the deeper is at least the top.
    pub fn if_icmpge(&mut self) -> (r: Result<(), Fault>)
        ensures
            outcome(old(self)@, final(self)@, r, state::if_icmp_spec(old(self)@, opcode::IF_ICMPGE)),
    {
        self.if_icmp(opcode::IF_ICMPGE)
    }

    /// Pops two ints and branches if the deeper is greater than the top.
    pub fn if_icmpgt(&mut self) -> (r: Result<(), Fault>)
        ensures
            outcome(old(self)@, final(self)@, r, state::if_icmp_spec(old(self)@, opcode::IF_ICMPGT)),
    {
        self.if_icmp(opcode::IF_ICMPGT)
    }

    /// Pops two ints and branches if the deeper is at most the top.
    pub fn if_icmple(&mut self) -> (r: Result<(), Fault>)
        ensures
            outcome(old(self)@, final(self)@, r, state::if_icmp_spec(old(self)@, opcode::IF_ICMPLE)),
    {
        self.if_icmp(opcode::IF_ICMPLE)
    }

    /// Pops two references and branches if they are the same.
    pub fn if_acmpeq(&mut self) -> (r: Result<(), Fault>)
        ensures
            outcome(old(self)@, final(self)@, r, state::if_acmp_spec(old(self)@, opcode::IF_ACMPEQ)),
    {
        self.if_acmp(opcode::IF_ACMPEQ)
    }

    /// Pops two references and branches if they differ.
    pub fn if_acmpne(&mut self) -> (r: Result<(), Fault>)
        ensures
            outcome(old(self)@, final(self)@, r, state::if_acmp_spec(old(self)@, opcode::IF_ACMPNE)),
    {
        self.if_acmp(opcode::IF_ACMPNE)
    }

    /// Branches by the two operand bytes.
    pub fn goto(&mut self) -> (r: Result<(), Fault>)
        ensures
            outcome(old(self)@, final(self)@, r, state::branch_spec(old(self)@, true)),
    {
        if let Some(e) = self.branch_fault(true) {
            return Err(e);
        }
        self.take_branch(true);
        Ok(())
    }

    /// Not implemented: does nothing.
    pub fn table_switch(&mut self) -> (r: Result<(), Fault>)
        ensures
            outcome(old(self)@, final(self)@, r, Ok(old(self)@)),
    {
        Ok(())
    }

    /// Not implemented: does nothing.
    pub fn lookup_switch(&mut self) -> (r: Result<(), Fault>)
        ensures
            outcome(old(self)@, final(self)@, r, Ok(old(self)@)),
    {
        Ok(())
    }

    /// Not implemented: does nothing.
    pub fn invoke_virtual(&mut self) -> (r: Result<(), Fault>)
        ensures
            outcome(old(self)@, final(self)@, r, Ok(old(self)@)),
    {
        Ok(())
    }

    /// Not implemented: does nothing.
    pub fn invoke_special(&mut self) -> (r: Result<(), Fault>)
        ensures
            outcome(old(self)@, final(self)@, r, Ok(old(self)@)),
    {
        Ok(())
    }

    /// Not implemented: does nothing.
    pub fn invoke_static(&mut self) -> (r: Result<(), Fault>)
        ensures
            outcome(old(self)@, final(self)@, r, Ok(old(self)@)),
    {
        Ok(())
    }

    /// Not implemented: does nothing.
    pub fn invoke_interface(&mut self) -> (r: Result<(), Fault>)
        ensures
            outcome(old(self)@, final(self)@, r, Ok(old(self)@)),
    {
        Ok(())
    }

    /// Not implemented: does nothing.
    pub fn invoke_dynamic(&mut self) -> (r: Result<(), Fault>)
        ensures
            outcome(old(self)@, final(self)@, r, Ok(old(self)@)),
    {
        Ok(())
    }

    /// Not implemented: does nothing.
    pub fn new_array(&mut self) -> (r: Result<(), Fault>)
        ensures
            outcome(old(self)@, final(self)@, r, Ok(old(self)@)),
    {
        Ok(())
    }

    /// Not implemented: does nothing.
    pub fn anew_array(&mut self) -> (r: Result<(), Fault>)
        ensures
            outcome(old(self)@, final(self)@, r, Ok(old(self)@)),
    {
        Ok(())
    }

    /// Not implemented: does nothing.
    pub fn check_cast(&mut self) -> (r: Result<(), Fault>)
        ensures
            outcome(old(self)@, final(self)@, r, Ok(old(self)@)),
    {
        Ok(())
    }

    /// Not implemented: does nothing.
    pub fn instance_of(&mut self) -> (r: Result<(), Fault>)
        ensures
            outcome(old(self)@, final(self)@, r, Ok(old(self)@)),
    {
        Ok(())
    }

    /// Not implemented: does nothing.
    pub fn multi_anew_array(&mut self) -> (r: Result<(), Fault>)
        ensures
            outcome(old(self)@, final(self)@, r, Ok(old(self)@)),
    {
        Ok(())
    }

    /// Pops a int and makes it the returned value.
    pub fn ireturn(&mut self) -> (r: Result<(), Fault>)
        ensures
            outcome(old(self)@, final(self)@, r, state::return_spec(old(self)@, Kind::Int)),
    {
        self.return_value(Kind::Int)
    }

    /// Pops a long and makes it the returned value.
    pub fn lreturn(&mut self) -> (r: Result<(), Fault>)
        ensures
            outcome(old(self)@, final(self)@, r, state::return_spec(old(self)@, Kind::Long)),
    {
        self.return_value(Kind::Long)
    }

    /// Pops a float and makes it the returned value.
    pub fn freturn(&mut self) -> (r: Result<(), Fault>)
        ensures
            outcome(old(self)@, final(self)@, r, state::return_spec(old(self)@, Kind::Float)),
    {
        self.return_value(Kind::Float)
    }

    /// Pops a double and makes it the returned value.
    pub fn dreturn(&mut self) -> (r: Result<(), Fault>)
        ensures
            outcome(old(self)@, final(self)@, r, state::return_spec(old(self)@, Kind::Double)),
    {
        self.return_value(Kind::Double)
    }

    /// Pops a reference and makes it the returned value.
    pub fn areturn(&mut self) -> (r: Result<(), Fault>)
        ensures
            outcome(old(self)@, final(self)@, r, state::return_spec(old(self)@, Kind::Reference)),
    {
        self.return_value(Kind::Reference)
    }

    /// Returns `null`.
    pub fn return_(&mut self) -> (r: Result<(), Fault>)
        ensures
            outcome(old(self)@, final(self)@, r, Ok(state::with_return(old(self)@, Slot::Null))),
    {
        self.set_return(Slot::Null);
        Ok(())
    }

    /// Pushes the static field named by the two operand bytes.
    pub fn get_static(&mut self) -> (r: Result<(), Fault>)
        ensures
            outcome(old(self)@, final(self)@, r, state::get_static_spec(old(self)@)),
    {
        self.get_static_impl()
    }

    /// Pops a value of the static field's type into the field named by the two operand bytes.
    pub fn put_static(&mut self) -> (r: Result<(), Fault>)
        ensures
            outcome(old(self)@, final(self)@, r, state::put_static_spec(old(self)@)),
    {
        self.put_field_helper(true)
    }

    /// Pops an object reference and reads its field named by the two operand bytes (the value read is not pushed).
    pub fn get_field(&mut self) -> (r: Result<(), Fault>)
        ensures
            outcome(old(self)@, final(self)@, r, state::get_field_spec(old(self)@)),
    {
        self.get_field_impl()
    }

    /// Pops a value of the field's type and an object reference, and stores the value into the field named by the two operand bytes.
    pub fn put_field(&mut self) -> (r: Result<(), Fault>)
        ensures
            outcome(old(self)@, final(self)@, r, state::put_field_spec(old(self)@)),
    {
        self.put_field_helper(false)
    }

    /// Initializes the class named by the two operand bytes and pushes a new instance of it.
    pub fn new_(&mut self) -> (r: Result<(), Fault>)
        ensures
            outcome(old(self)@, final(self)@, r, state::new_spec(old(self)@)),
    {
        self.new_impl()
    }

    /// Pops an array reference and pushes the array's length.
    pub fn array_length(&mut self) -> (r: Result<(), Fault>)
        ensures
            outcome(old(self)@, final(self)@, r, state::array_length_spec(old(self)@)),
    {
        self.array_length_impl()
    }

    /// Pops a reference and throws it.
    pub fn athrow(&mut self) -> (r: Result<(), Fault>)
        ensures
            outcome(old(self)@, final(self)@, r, state::athrow_spec(old(self)@)),
    {
        self.athrow_impl()
    }

    /// Pops an object reference and enters its monitor.
    pub fn monitor_enter(&mut self) -> (r: Result<(), Fault>)
        ensures
            outcome(old(self)@, final(self)@, r, state::monitor_spec(old(self)@, true)),
    {
        self.monitor(true)
    }

    /// Pops an object reference and leaves its monitor.
    pub fn monitor_exit(&mut self) -> (r: Result<(), Fault>)
        ensures
            outcome(old(self)@, final(self)@, r, state::monitor_spec(old(self)@, false)),
    {
        self.monitor(false)
    }

    /// Pops a reference and branches if it is `null`.
    pub fn if_null(&mut self) -> (r: Result<(), Fault>)
        ensures
            outcome(old(self)@, final(self)@, r, state::if_null_spec(old(self)@, opcode::IFNULL)),
    {
        self.if_null_impl(opcode::IFNULL)
    }

    /// Pops a reference and branches if it is not `null`.
    pub fn if_non_null(&mut self) -> (r: Result<(), Fault>)
        ensures
            outcome(old(self)@, final(self)@, r, state::if_null_spec(old(self)@, opcode::IFNONNULL)),
    {
        self.if_null_impl(opcode::IFNONNULL)
    }

}

/// Whether `op` computes on `float` or `double` values.
pub fn float_op(op: u8) -> (r: bool)
    ensures
        r == step::is_float_op(op),
{
    op == opcode::FADD || op == opcode::DADD || op == opcode::FSUB || op == opcode::DSUB || op
        == opcode::FMUL || op == opcode::DMUL || op == opcode::FDIV || op == opcode::DDIV || (
    opcode::I2F <= op && op <= opcode::I2D) || (opcode::L2F <= op && op <= opcode::D2F) || (
    opcode::FCMPL <= op && op <= opcode::DCMPG)
}

impl Frame {
    /// Reports an opcode the interpreter does not know: the one before the program counter.
    pub fn other_wise(&mut self) -> (r: Result<(), Fault>)
        ensures
            outcome(old(self)@, final(self)@, r, state::other_wise_spec(old(self)@)),
    {
        if 1 <= self.pc && (self.pc as usize) <= self.code.len() {
            Err(Fault::UndefinedOpcode(self.code[(self.pc - 1) as usize]))
        } else {
            Err(Fault::CodeOutOfRange)
        }
    }

    /// Executes the instruction `op`, other than a floating-point one, with the program
    /// counter past its opcode.
    pub fn execute(&mut self, op: u8) -> (r: Result<(), Fault>)
        requires
            !step::is_float_op(op),
        ensures
            outcome(old(self)@, final(self)@, r, step::instr_spec(old(self)@, op)),
    {
        match op {
            opcode::NOP => self.nop(),
            opcode::ACONST_NULL => self.aconst_null(),
            opcode::ICONST_M1 => self.iconst_m1(),
            opcode::ICONST_0 => self.iconst_0(),
            opcode::ICONST_1 => self.iconst_1(),
            opcode::ICONST_2 => self.iconst_2(),
            opcode::ICONST_3 => self.iconst_3(),
            opcode::ICONST_4 => self.iconst_4(),
            opcode::ICONST_5 => self.iconst_5(),
            opcode::LCONST_0 => self.lconst_0(),
            opcode::LCONST_1 => self.lconst_1(),
            opcode::FCONST_0 => self.fconst_0(),
            opcode::FCONST_1 => self.fconst_1(),
            opcode::FCONST_2 => self.fconst_2(),
            opcode::DCONST_0 => self.dconst_0(),
            opcode::DCONST_1 => self.dconst_1(),
            opcode::BIPUSH => self.bipush(),
            opcode::SIPUSH => self.sipush(),
            opcode::LDC => self.ldc(),
            opcode::LDC_W => self.ldc_w(),
            opcode::LDC2_W => self.ldc2_w(),
            opcode::ILOAD => self.iload(),
            opcode::LLOAD => self.lload(),
            opcode::FLOAD => self.fload(),
            opcode::DLOAD => self.dload(),
            opcode::ALOAD => self.aload(),
            opcode::ILOAD_0 => self.iload_0(),
            opcode::ILOAD_1 => self.iload_1(),
            opcode::ILOAD_2 => self.iload_2(),
            opcode::ILOAD_3 => self.iload_3(),
            opcode::LLOAD_0 => self.lload_0(),
            opcode::LLOAD_1 => self.lload_1(),
            opcode::LLOAD_2 => self.lload_2(),
            opcode::LLOAD_3 => self.lload_3(),
            opcode::FLOAD_0 => self.fload_0(),
            opcode::FLOAD_1 => self.fload_1(),
            opcode::FLOAD_2 => self.fload_2(),
            opcode::FLOAD_3 => self.fload_3(),
            opcode::DLOAD_0 => self.dload_0(),
            opcode::DLOAD_1 => self.dload_1(),
            opcode::DLOAD_2 => self.dload_2(),
            opcode::DLOAD_3 => self.dload_3(),
            opcode::ALOAD_0 => self.aload_0(),
            opcode::ALOAD_1 => self.aload_1(),
            opcode::ALOAD_2 => self.aload_2(),
            opcode::ALOAD_3 => self.aload_3(),
            opcode::IALOAD => self.iaload(),
            opcode::LALOAD => self.laload(),
            opcode::FALOAD => self.faload(),
            opcode::DALOAD => self.daload(),
            opcode::AALOAD => self.aaload(),
            opcode::BALOAD => self.baload(),
            opcode::CALOAD => self.caload(),
            opcode::SALOAD => self.saload(),
            opcode::ISTORE => self.istore(),
            opcode::LSTORE => self.lstore(),
            opcode::FSTORE => self.fstore(),
            opcode::DSTORE => self.dstore(),
            opcode::ASTORE => self.astore(),
            opcode::ISTORE_0 => self.istore_0(),
            opcode::ISTORE_1 => self.istore_1(),
            opcode::ISTORE_2 => self.istore_2(),
            opcode::ISTORE_3 => self.istore_3(),
            opcode::LSTORE_0 => self.lstore_0(),
            opcode::LSTORE_1 => self.lstore_1(),
            opcode::LSTORE_2 => self.lstore_2(),
            opcode::LSTORE_3 => self.lstore_3(),
            opcode::FSTORE_0 => self.fstore_0(),
            opcode::FSTORE_1 => self.fstore_1(),
            opcode::FSTORE_2 => self.fstore_2(),
            opcode::FSTORE_3 => self.fstore_3(),
            opcode::DSTORE_0 => self.dstore_0(),
            opcode::DSTORE_1 => self.dstore_1(),
            opcode::DSTORE_2 => self.dstore_2(),
            opcode::DSTORE_3 => self.dstore_3(),
            opcode::ASTORE_0 => self.astore_0(),
            opcode::ASTORE_1 => self.astore_1(),
            opcode::ASTORE_2 => self.astore_2(),
            opcode::ASTORE_3 => self.astore_3(),
            opcode::IASTORE => self.iastore(),
            opcode::LASTORE => self.lastore(),
            opcode::FASTORE => self.fastore(),
            opcode::DASTORE => self.dastore(),
            opcode::AASTORE => self.aastore(),
            opcode::BASTORE => self.bastore(),
            opcode::CASTORE => self.castore(),
            opcode::SASTORE => self.sastore(),
            opcode::POP => self.pop(),
            opcode::POP2 => self.pop2(),
            opcode::DUP => self.dup(),
            opcode::DUP_X1 => self.dup_x1(),
            opcode::DUP_X2 => self.dup_x2(),
            opcode::DUP2 => self.dup2(),
            opcode::DUP2_X1 => self.dup2_x1(),
            opcode::DUP2_X2 => self.dup2_x2(),
            opcode::SWAP => self.swap(),
            opcode::IADD => self.iadd(),
            opcode::LADD => self.ladd(),
            opcode::ISUB => self.isub(),
            opcode::LSUB => self.lsub(),
            opcode::IMUL => self.imul(),
            opcode::LMUL => self.lmul(),
            opcode::IDIV => self.idiv(),
            opcode::LDIV => self.ldiv(),
            opcode::IREM => self.irem(),
            opcode::LREM => self.lrem(),
            opcode::FREM => self.frem(),
            opcode::DREM => self.drem(),
            opcode::INEG => self.ineg(),
            opcode::LNEG => self.lneg(),
            opcode::FNEG => self.fneg(),
            opcode::DNEG => self.dneg(),
            opcode::ISHL => self.ishl(),
            opcode::LSHL => self.lshl(),
            opcode::ISHR => self.ishr(),
            opcode::LSHR => self.lshr(),
            opcode::IUSHR => self.iushr(),
            opcode::LUSHR => self.lushr(),
            opcode::IAND => self.iand(),
            opcode::LAND => self.land(),
            opcode::IOR => self.ior(),
            opcode::LOR => self.lor(),
            opcode::IXOR => self.ixor(),
            opcode::LXOR => self.lxor(),
            opcode::IINC => self.iinc(),
            opcode::I2L => self.i2l(),
            opcode::L2I => self.l2i(),
            opcode::I2B => self.i2b(),
            opcode::I2C => self.i2c(),
            opcode::I2S => self.i2s(),
            opcode::LCMP => self.lcmp(),
            opcode::IFEQ => self.ifeq(),
            opcode::IFNE => self.ifne(),
            opcode::IFLT => self.iflt(),
            opcode::IFGE => self.ifge(),
            opcode::IFGT => self.ifgt(),
            opcode::IFLE => self.ifle(),
            opcode::IF_ICMPEQ => self.if_icmpeq(),
            opcode::IF_ICMPNE => self.if_icmpne(),
            opcode::IF_ICMPLT => self.if_icmplt(),
            opcode::IF_ICMPGE => self.if_icmpge(),
            opcode::IF_ICMPGT => self.if_icmpgt(),
            opcode::IF_ICMPLE => self.if_icmple(),
            opcode::IF_ACMPEQ => self.if_acmpeq(),
            opcode::IF_ACMPNE => self.if_acmpne(),
            opcode::GOTO => self.goto(),
            opcode::JSR => self.jsr(),
            opcode::RET => self.ret(),
            opcode::TABLESWITCH => self.table_switch(),
            opcode::LOOKUPSWITCH => self.lookup_switch(),
            opcode::IRETURN => self.ireturn(),
            opcode::LRETURN => self.lreturn(),
            opcode::FRETURN => self.freturn(),
            opcode::DRETURN => self.dreturn(),
            opcode::ARETURN => self.areturn(),
            opcode::RETURN => self.return_(),
            opcode::GETSTATIC => self.get_static(),
            opcode::PUTSTATIC => self.put_static(),
            opcode::GETFIELD => self.get_field(),
            opcode::PUTFIELD => self.put_field(),
            opcode::INVOKEVIRTUAL => self.invoke_virtual(),
            opcode::INVOKESPECIAL => self.invoke_special(),
            opcode::INVOKESTATIC => self.invoke_static(),
            opcode::INVOKEINTERFACE => self.invoke_interface(),
            opcode::INVOKEDYNAMIC => self.invoke_dynamic(),
            opcode::NEW => self.new_(),
            opcode::NEWARRAY => self.new_array(),
            opcode::ANEWARRAY => self.anew_array(),
            opcode::ARRAYLENGTH => self.array_length(),
            opcode::ATHROW => self.athrow(),
            opcode::CHECKCAST => self.check_cast(),
            opcode::INSTANCEOF => self.instance_of(),
            opcode::MONITORENTER => self.monitor_enter(),
            opcode::MONITOREXIT => self.monitor_exit(),
            opcode::WIDE => self.wide(),
            opcode::MULTIANEWARRAY => self.multi_anew_array(),
            opcode::IFNULL => self.if_null(),
            opcode::IFNONNULL => self.if_non_null(),
            opcode::GOTO_W => self.goto_w(),
            opcode::JSR_W => self.jsr_w(),
            _ => Ok(()),
        }
    }

    /// Runs the code from the program counter for at most `fuel` instructions, until a
    /// return instruction, the end of the code, a fault, or a floating-point instruction
    /// (left to the caller with the program counter past its opcode).
    pub fn exec_interp(&mut self, budget: u64) -> (r: Result<Stop, Fault>)
        ensures
            (r, final(self)@) == step::run_spec(old(self)@, budget as nat),
    {
        let mut fuel = budget;
        loop
            invariant
                step::run_spec(old(self)@, budget as nat) == step::run_spec(self@, fuel as nat),
            decreases fuel,
        {
            if fuel == 0 {
                return Ok(Stop::OutOfFuel);
            }
            let op_code = self.read_opcode();
            match op_code {
                None => {
                    return Ok(Stop::CodeEnd);
                },
                Some(op) => {
                    if float_op(op) {
                        return Ok(Stop::FloatOp(op));
                    }
                    self.execute(op)?;
                    if opcode::IRETURN <= op && op <= opcode::RETURN {
                        return Ok(Stop::Returned);
                    }
                },
            }
            fuel = fuel - 1;
        }
    }
}

} // verus!
