//! The data the interpreter works on besides the frame itself: heap objects, classes,
//! fields, constant pool entries, exception handlers and methods.

use vstd::prelude::*;
use crate::value::{Slot, ValueType, ExceptionKind};

verus! {

/// What a heap object is.
#[derive(Clone, Copy, PartialEq, Eq, Structural, Debug)]
pub enum ObjKind {
    /// An array; its elements are the object's slots.
    Array,
    /// An instance of the class with this index; its fields are the object's slots.
    Instance(usize),
    /// A string; its UTF-8 bytes are the object's bytes.
    Str,
    /// An exception raised by the interpreter; its message is the object's bytes.
    Throwable(ExceptionKind),
}

/// An object of the heap.
pub struct HeapObject {
    pub kind: ObjKind,
    pub slots: Vec<Slot>,
    pub bytes: Vec<u8>,
    /// How many times the object's monitor has been entered and not yet left.
    pub lock: u64,
}

/// The mathematical value of a heap object.
#[verifier::ext_equal]
pub struct ObjectView {
    pub kind: ObjKind,
    pub slots: Seq<Slot>,
    pub bytes: Seq<u8>,
    pub lock: u64,
}

impl View for HeapObject {
    type V = ObjectView;

    open spec fn view(&self) -> ObjectView {
        ObjectView { kind: self.kind, slots: self.slots@, bytes: self.bytes@, lock: self.lock }
    }
}

/// What kind of class a class entry describes.
#[derive(Clone, Copy, PartialEq, Eq, Structural, Debug)]
pub enum ClassKind {
    InstanceClass,
    ObjectArray,
    TypeArray,
}

/// A loaded class.
pub struct ClassInfo {
    pub kind: ClassKind,
    pub initialized: bool,
    /// The types of the instance fields, in slot order.
    pub field_types: Vec<ValueType>,
}

#[verifier::ext_equal]
pub struct ClassView {
    pub kind: ClassKind,
    pub initialized: bool,
    pub field_types: Seq<ValueType>,
}

impl View for ClassInfo {
    type V = ClassView;

    open spec fn view(&self) -> ClassView {
        ClassView {
            kind: self.kind,
            initialized: self.initialized,
            field_types: self.field_types@,
        }
    }
}

/// A resolved field: its type, whether it is static, and its slot (in the statics table
/// for a static field, in the instance's slots otherwise).
#[derive(Clone, Copy, PartialEq, Eq, Structural, Debug)]
pub struct FieldInfo {
    pub value_type: ValueType,
    pub is_static: bool,
    pub index: usize,
}

/// An entry of a constant pool. Class and field references are held resolved, as
/// indices into the runtime's class and field tables.
pub enum Constant {
    Integer(i32),
    Float(u32),
    Long(i64),
    Double(u64),
    /// A string whose UTF-8 bytes are the `Utf8` entry at this index.
    String(u16),
    Utf8(Vec<u8>),
    Class(usize),
    FieldRef(usize),
    /// Any other kind of entry.
    Other,
}

pub enum ConstantView {
    Integer(i32),
    Float(u32),
    Long(i64),
    Double(u64),
    String(u16),
    Utf8(Seq<u8>),
    Class(usize),
    FieldRef(usize),
    Other,
}

impl View for Constant {
    type V = ConstantView;

    open spec fn view(&self) -> ConstantView {
        match self {
            Constant::Integer(v) => ConstantView::Integer(*v),
            Constant::Float(v) => ConstantView::Float(*v),
            Constant::Long(v) => ConstantView::Long(*v),
            Constant::Double(v) => ConstantView::Double(*v),
            Constant::String(i) => ConstantView::String(*i),
            Constant::Utf8(b) => ConstantView::Utf8(b@),
            Constant::Class(c) => ConstantView::Class(*c),
            Constant::FieldRef(f) => ConstantView::FieldRef(*f),
            Constant::Other => ConstantView::Other,
        }
    }
}

/// Which exceptions a handler catches.
#[derive(Clone, Copy, PartialEq, Eq, Structural, Debug)]
pub enum Catch {
    Any,
    Exception(ExceptionKind),
    Class(usize),
}

/// An entry of a method's exception table: exceptions thrown while the program counter
/// lies in `start_pc .. end_pc` and caught by `catch` continue at `handler_pc`.
#[derive(Clone, Copy, PartialEq, Eq, Structural, Debug)]
pub struct ExceptionHandler {
    pub start_pc: u16,
    pub end_pc: u16,
    pub handler_pc: u16,
    pub catch: Catch,
}

/// Whether a handler catching `c` catches an object of kind `k`.
pub open spec fn catches(c: Catch, k: ObjKind) -> bool {
    match c {
        Catch::Any => true,
        Catch::Exception(e) => k == ObjKind::Throwable(e),
        Catch::Class(id) => k == ObjKind::Instance(id),
    }
}

/// The class a method belongs to: its constant pool.
pub struct Class {
    pub cp: Vec<Constant>,
}

/// The code attribute of a method.
pub struct Code {
    pub max_locals: u16,
    pub max_stack: u16,
    pub code: Vec<u8>,
    pub handlers: Vec<ExceptionHandler>,
}

pub struct Method {
    pub class: Class,
    pub code: Code,
}

pub struct MethodId {
    pub method: Method,
}

/// The state shared by the frames of a thread: the heap, the static fields, and the
/// class and field tables.
pub struct Runtime {
    pub heap: Vec<HeapObject>,
    pub statics: Vec<Slot>,
    pub classes: Vec<ClassInfo>,
    pub fields: Vec<FieldInfo>,
}

pub open spec fn heap_view(h: Seq<HeapObject>) -> Seq<ObjectView> {
    Seq::new(h.len(), |i: int| h[i]@)
}

pub open spec fn classes_view(c: Seq<ClassInfo>) -> Seq<ClassView> {
    Seq::new(c.len(), |i: int| c[i]@)
}

pub open spec fn cp_view(c: Seq<Constant>) -> Seq<ConstantView> {
    Seq::new(c.len(), |i: int| c[i]@)
}

/// The mathematical value of a method: its constant pool and code attribute.
#[verifier::ext_equal]
pub struct MethodView {
    pub cp: Seq<ConstantView>,
    pub max_locals: u16,
    pub max_stack: u16,
    pub code: Seq<u8>,
    pub handlers: Seq<ExceptionHandler>,
}

impl View for Method {
    type V = MethodView;

    open spec fn view(&self) -> MethodView {
        MethodView {
            cp: cp_view(self.class.cp@),
            max_locals: self.code.max_locals,
            max_stack: self.code.max_stack,
            code: self.code.code@,
            handlers: self.code.handlers@,
        }
    }
}

impl Constant {
    /// A copy of the entry.
    pub fn duplicate(&self) -> (r: Constant)
        ensures
            r@ == self@,
    {
        match self {
            Constant::Integer(v) => Constant::Integer(*v),
            Constant::Float(v) => Constant::Float(*v),
            Constant::Long(v) => Constant::Long(*v),
            Constant::Double(v) => Constant::Double(*v),
            Constant::String(i) => Constant::String(*i),
            Constant::Utf8(b) => Constant::Utf8(b.clone()),
            Constant::Class(c) => Constant::Class(*c),
            Constant::FieldRef(f) => Constant::FieldRef(*f),
            Constant::Other => Constant::Other,
        }
    }
}

impl Method {
    /// A copy of the method.
    pub fn duplicate(&self) -> (r: Method)
        ensures
            r@ == self@,
    {
        let mut cp: Vec<Constant> = Vec::new();
        let mut i: usize = 0;
        while i < self.class.cp.len()
            invariant
                i <= self.class.cp@.len(),
                cp@.len() == i,
                forall|k: int| 0 <= k < i ==> cp@[k]@ == self.class.cp@[k]@,
            decreases self.class.cp@.len() - i,
        {
            cp.push(self.class.cp[i].duplicate());
            i += 1;
        }
        let mut handlers: Vec<ExceptionHandler> = Vec::new();
        let mut j: usize = 0;
        while j < self.code.handlers.len()
            invariant
                j <= self.code.handlers@.len(),
                handlers@ == self.code.handlers@.subrange(0, j as int),
            decreases self.code.handlers@.len() - j,
        {
            handlers.push(self.code.handlers[j]);
            j += 1;
            assert(handlers@ =~= self.code.handlers@.subrange(0, j as int));
        }
        assert(handlers@ =~= self.code.handlers@);
        let r = Method {
            class: Class { cp },
            code: Code {
                max_locals: self.code.max_locals,
                max_stack: self.code.max_stack,
                code: self.code.code.clone(),
                handlers,
            },
        };
        assert(cp_view(r.class.cp@) =~= cp_view(self.class.cp@));
        assert(r@ =~= self@);
        r
    }
}

} // verus!
