//! Values of the virtual machine.

use crate::descriptor::{BaseTypeView, FieldType, FieldTypeView, BaseType};
use vstd::prelude::*;

verus! {

/// A value as it stands in a local, on the operand stack, in a field or in a
/// static slot.
#[derive(Clone, Copy, Debug, PartialEq, Eq, Structural)]
pub enum JvmValue {
    Byte(i8),
    Short(i16),
    Int(i32),
    Long(i64),
    Char(u16),
    /// A float, by its bits.
    Float(u32),
    /// A double, by its bits.
    Double(u64),
    Boolean(bool),
    /// The index of an instruction.
    ReturnAddress(usize),
    /// A heap address; zero is the null reference.
    Reference(usize),
    /// A string constant, borrowed from the constant pool of a class: the
    /// number of the class in the registry and the index of the utf-8 entry.
    StringConst { class: usize, index: u16 },
}

/// The null reference.
pub const NULL: usize = 0;

/// The value that a field of the given type holds before it is written:
/// zero for a number, false for a boolean, null for a class or an array.
pub open spec fn default_of(field_type: FieldTypeView) -> JvmValue {
    match field_type {
        FieldTypeView::Base(base) => match base {
            BaseTypeView::Byte => JvmValue::Byte(0),
            BaseTypeView::Char => JvmValue::Char(0),
            BaseTypeView::Double => JvmValue::Double(0),
            BaseTypeView::Float => JvmValue::Float(0),
            BaseTypeView::Int => JvmValue::Int(0),
            BaseTypeView::Long => JvmValue::Long(0),
            BaseTypeView::Short => JvmValue::Short(0),
            BaseTypeView::Boolean => JvmValue::Boolean(false),
            BaseTypeView::Object(_) => JvmValue::Reference(0),
        },
        FieldTypeView::Array(_, _) => JvmValue::Reference(0),
    }
}

/// The value that a field of the given type holds before it is written.
pub fn default_value(field_type: &FieldType) -> (r: JvmValue)
    ensures
        r == default_of(field_type@),
{
    match field_type {
        FieldType::Base(base) => match base {
            BaseType::Byte => JvmValue::Byte(0),
            BaseType::Char => JvmValue::Char(0),
            BaseType::Double => JvmValue::Double(0),
            BaseType::Float => JvmValue::Float(0),
            BaseType::Int => JvmValue::Int(0),
            BaseType::Long => JvmValue::Long(0),
            BaseType::Short => JvmValue::Short(0),
            BaseType::Boolean => JvmValue::Boolean(false),
            BaseType::Object(_) => JvmValue::Reference(0),
        },
        FieldType::Array(_, _) => JvmValue::Reference(0),
    }
}

} // verus!
