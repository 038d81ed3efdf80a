//! Values held by the operand stack, the local variables, fields and array elements.

use vstd::prelude::*;

verus! {

/// One slot of the operand stack, of the local variable table, of an array or of a field.
///
/// `float` and `double` values are carried by their IEEE-754 bit patterns; no arithmetic is
/// done on them here. `Ref(h)` names the object at index `h` of the heap.
#[derive(Clone, Copy, PartialEq, Eq, Structural, Debug)]
pub enum Slot {
    /// A local variable that was never written.
    Empty,
    Int(i32),
    Long(i64),
    Float(u32),
    Double(u64),
    Null,
    Ref(usize),
}

/// The kind of value an instruction expects in a slot.
#[derive(Clone, Copy, PartialEq, Eq, Structural, Debug)]
pub enum Kind {
    Int,
    Long,
    Float,
    Double,
    /// `null` or a reference to a heap object.
    Reference,
    /// Any value at all.
    Any,
}

/// Whether `v` is a value of kind `k`.
pub open spec fn has_kind(v: Slot, k: Kind) -> bool {
    match k {
        Kind::Int => v is Int,
        Kind::Long => v is Long,
        Kind::Float => v is Float,
        Kind::Double => v is Double,
        Kind::Reference => v is Null || v is Ref,
        Kind::Any => true,
    }
}

/// Tests whether `v` is a value of kind `k`.
pub fn slot_has_kind(v: Slot, k: Kind) -> (r: bool)
    ensures
        r == has_kind(v, k),
{
    match k {
        Kind::Int => matches!(v, Slot::Int(_)),
        Kind::Long => matches!(v, Slot::Long(_)),
        Kind::Float => matches!(v, Slot::Float(_)),
        Kind::Double => matches!(v, Slot::Double(_)),
        Kind::Reference => matches!(v, Slot::Null) || matches!(v, Slot::Ref(_)),
        Kind::Any => true,
    }
}

/// The declared type of a field.
#[derive(Clone, Copy, PartialEq, Eq, Structural, Debug)]
pub enum ValueType {
    Byte,
    Char,
    Double,
    Float,
    Int,
    Long,
    Object,
    Short,
    Boolean,
    Array,
    Void,
}

/// The kind of slot that holds a value of type `t`; `None` for `void`.
pub open spec fn kind_of_type(t: ValueType) -> Option<Kind> {
    match t {
        ValueType::Object | ValueType::Array => Some(Kind::Reference),
        ValueType::Int | ValueType::Short | ValueType::Char | ValueType::Boolean
        | ValueType::Byte => Some(Kind::Int),
        ValueType::Float => Some(Kind::Float),
        ValueType::Double => Some(Kind::Double),
        ValueType::Long => Some(Kind::Long),
        ValueType::Void => None,
    }
}

/// The kind of slot that holds a value of type `t`; `None` for `void`.
pub fn value_type_kind(t: ValueType) -> (r: Option<Kind>)
    ensures
        r == kind_of_type(t),
{
    match t {
        ValueType::Object | ValueType::Array => Some(Kind::Reference),
        ValueType::Int | ValueType::Short | ValueType::Char | ValueType::Boolean
        | ValueType::Byte => Some(Kind::Int),
        ValueType::Float => Some(Kind::Float),
        ValueType::Double => Some(Kind::Double),
        ValueType::Long => Some(Kind::Long),
        ValueType::Void => None,
    }
}

/// The value a fresh field of type `t` holds.
pub open spec fn default_value(t: ValueType) -> Slot {
    match t {
        ValueType::Object | ValueType::Array => Slot::Null,
        ValueType::Int | ValueType::Short | ValueType::Char | ValueType::Boolean
        | ValueType::Byte => Slot::Int(0),
        ValueType::Float => Slot::Float(0),
        ValueType::Double => Slot::Double(0),
        ValueType::Long => Slot::Long(0),
        ValueType::Void => Slot::Empty,
    }
}

/// The value a fresh field of type `t` holds.
pub fn default_slot(t: ValueType) -> (r: Slot)
    ensures
        r == default_value(t),
{
    match t {
        ValueType::Object | ValueType::Array => Slot::Null,
        ValueType::Int | ValueType::Short | ValueType::Char | ValueType::Boolean
        | ValueType::Byte => Slot::Int(0),
        ValueType::Float => Slot::Float(0),
        ValueType::Double => Slot::Double(0),
        ValueType::Long => Slot::Long(0),
        ValueType::Void => Slot::Empty,
    }
}

/// The Java exceptions that the interpreter raises by itself.
#[derive(Clone, Copy, PartialEq, Eq, Structural, Debug)]
pub enum ExceptionKind {
    NullPointer,
    ArrayIndexOutOfBounds,
    Arithmetic,
}

/// Why an instruction could not be carried out. An instruction that fails leaves the
/// frame as it found it.
#[derive(Clone, Copy, PartialEq, Eq, Structural, Debug)]
pub enum Fault {
    /// The operand stack holds fewer values than the instruction pops.
    StackUnderflow,
    /// A slot or a heap object is not of the kind the instruction expects.
    TypeMismatch,
    /// A reference names no object of the heap.
    DanglingReference,
    /// A local variable index is not below the size of the local variable table.
    LocalOutOfRange,
    /// An operand of the instruction lies outside the code.
    CodeOutOfRange,
    /// The program counter would leave the range of `i32`.
    PcOverflow,
    /// A constant pool index names no entry, or an entry of the wrong kind.
    BadConstant,
    /// A class constant was loaded with `ldc`, which is not implemented.
    UnsupportedConstant,
    /// A field reference does not resolve to a field of the expected kind.
    BadField,
    /// A class reference does not resolve to an instance class.
    BadClass,
    /// A monitor count would leave the range of `u64`.
    MonitorState,
    /// The instruction (its opcode given) is deprecated and refused.
    Deprecated(u8),
    /// The opcode is not one the interpreter knows.
    UndefinedOpcode(u8),
}

} // verus!
