//! The managed runtime's boxed value: a tagged union of one object reference
//! or one primitive, as it is passed to and returned from managed methods.

use vstd::prelude::*;

verus! {

/// The managed runtime's sentinel for a true `boolean`.
pub const JNI_TRUE: u8 = 1;

/// The managed runtime's sentinel for a false `boolean`.
pub const JNI_FALSE: u8 = 0;

/// The tag of a boxed value.
#[derive(Clone, Copy, Debug, PartialEq, Eq, Structural)]
pub enum ValueKind {
    Object,
    Byte,
    Char,
    Short,
    Int,
    Long,
    Bool,
    Float,
    Double,
    Void,
}

/// A boxed value. `O` is the object reference it may carry: an owned local
/// reference for a value that came back from a call, a borrowed one for an
/// argument.
///
/// `Bool` carries the runtime's one-byte encoding, `Float` and `Double` carry
/// the IEEE 754 bit pattern of the number.
#[derive(Debug, PartialEq)]
pub enum BoxedValue<O> {
    Object(O),
    Byte(i8),
    Char(u16),
    Short(i16),
    Int(i32),
    Long(i64),
    Bool(u8),
    Float(u32),
    Double(u64),
    Void,
}

impl<O> BoxedValue<O> {
    /// The tag of this value.
    pub open spec fn tag(self) -> ValueKind {
        match self {
            BoxedValue::Object(_) => ValueKind::Object,
            BoxedValue::Byte(_) => ValueKind::Byte,
            BoxedValue::Char(_) => ValueKind::Char,
            BoxedValue::Short(_) => ValueKind::Short,
            BoxedValue::Int(_) => ValueKind::Int,
            BoxedValue::Long(_) => ValueKind::Long,
            BoxedValue::Bool(_) => ValueKind::Bool,
            BoxedValue::Float(_) => ValueKind::Float,
            BoxedValue::Double(_) => ValueKind::Double,
            BoxedValue::Void => ValueKind::Void,
        }
    }

    /// The tag of this value.
    pub fn kind(&self) -> (k: ValueKind)
        ensures
            k == self.tag(),
        opens_invariants none
        no_unwind
    {
        match self {
            BoxedValue::Object(_) => ValueKind::Object,
            BoxedValue::Byte(_) => ValueKind::Byte,
            BoxedValue::Char(_) => ValueKind::Char,
            BoxedValue::Short(_) => ValueKind::Short,
            BoxedValue::Int(_) => ValueKind::Int,
            BoxedValue::Long(_) => ValueKind::Long,
            BoxedValue::Bool(_) => ValueKind::Bool,
            BoxedValue::Float(_) => ValueKind::Float,
            BoxedValue::Double(_) => ValueKind::Double,
            BoxedValue::Void => ValueKind::Void,
        }
    }
}

} // verus!
