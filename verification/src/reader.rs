//! The binary reader.
//!
//! A class file is a run of bytes: a header, the constant pool, the access
//! flags and names of the class, and then its interfaces, fields, methods and
//! attributes, each a count followed by that many records. Every number is
//! stored most significant byte first. The spec functions of this module say
//! what a run of bytes holds, record by record; the reader is proved to
//! return exactly that.

use crate::bytes::{
    be_i32, be_u16, be_u32, be_u64, i64_of, in_bounds, u16_at, u32_at, u32_to_i32, u64_at,
    u64_to_i64, u8_at,
};
use crate::class_file::constant_pool::{
    Class, ConstantInfo, ConstantInfoView, ConstantPool, Dynamic, FieldRef, InvokeDynamic,
    MethodHandle, MethodRef, MethodType, Module, NameAndType, Package, String as StringEntry,
    pool_entry,
};
use crate::class_file::{
    attributes_view, AttributeInfo, AttributeInfoView, BootstrapMethod,
    BootstrapMethodView, BootstrapMethodsAttribute, ClassAccessFlags, ClassFile, ClassFileView,
    CodeAttribute, CustomAttribute, ExceptionTableEntry, FieldAccessFlags, FieldInfo,
    FieldInfoView, InnerClass, InnerClassAccessFlags, InnerClassesAttribute,
    LineNumberTableAttribute, LineNumberTableEntry, MethodAccessFlags, MethodInfo, MethodInfoView,
    SourceFileAttribute,
};
use crate::text::{str_eq, string_from_utf8};
use vstd::prelude::*;
use vstd::slice::{slice_subrange, slice_to_vec};
use vstd::utf8::{decode_utf8, valid_utf8};

verus! {

/// Why a run of bytes is no class file.
#[derive(Clone, Copy, Debug, PartialEq, Eq, Structural)]
pub enum ReadError {
    /// The file does not start with `0xCAFEBABE` but with this.
    BadMagic(u32),
    /// The file ends in the middle of a record.
    UnexpectedEof,
    /// A constant-pool entry has a tag that names no kind of constant.
    UnknownConstantTag(u8),
    /// The bytes of a utf-8 constant are no valid UTF-8.
    InvalidUtf8,
    /// The name index of an attribute does not lead to a utf-8 constant.
    InvalidAttributeName(u16),
}

/// The magic number that every class file starts with.
pub const MAGIC: u32 = 0xCAFE_BABE;

/// The constant that is stored at `pos`, and where it ends.
pub open spec fn constant_at(bytes: Seq<u8>, pos: int) -> Result<(ConstantInfoView, int), ReadError> {
    if !in_bounds(bytes, pos, 1) {
        Err(ReadError::UnexpectedEof)
    } else {
        let tag = bytes[pos];
        let at = pos + 1;
        if tag == 1 {
            if !in_bounds(bytes, at, 2) {
                Err(ReadError::UnexpectedEof)
            } else if !in_bounds(bytes, at + 2, be_u16(bytes, at) as int) {
                Err(ReadError::UnexpectedEof)
            } else {
                let encoded = bytes.subrange(at + 2, at + 2 + be_u16(bytes, at));
                if valid_utf8(encoded) {
                    Ok((ConstantInfoView::Utf8(decode_utf8(encoded)), at + 2 + be_u16(bytes, at)))
                } else {
                    Err(ReadError::InvalidUtf8)
                }
            }
        } else if tag == 3 || tag == 4 || tag == 9 || tag == 10 || tag == 11 || tag == 12 || tag
            == 17 || tag == 18 {
            if !in_bounds(bytes, at, 4) {
                Err(ReadError::UnexpectedEof)
            } else {
                let first = be_u16(bytes, at);
                let second = be_u16(bytes, at + 2);
                Ok(
                    (
                        if tag == 3 {
                            ConstantInfoView::Integer(be_i32(bytes, at))
                        } else if tag == 4 {
                            ConstantInfoView::Float(be_u32(bytes, at))
                        } else if tag == 9 {
                            ConstantInfoView::FieldRef(
                                FieldRef { class_index: first, name_and_type_index: second },
                            )
                        } else if tag == 10 {
                            ConstantInfoView::MethodRef(
                                MethodRef { class_index: first, name_and_type_index: second },
                            )
                        } else if tag == 11 {
                            ConstantInfoView::InterfaceMethodRef(
                                MethodRef { class_index: first, name_and_type_index: second },
                            )
                        } else if tag == 12 {
                            ConstantInfoView::NameAndType(
                                NameAndType { name_index: first, descriptor_index: second },
                            )
                        } else if tag == 17 {
                            ConstantInfoView::Dynamic(
                                Dynamic {
                                    bootstrap_method_attr_index: first,
                                    name_and_type_index: second,
                                },
                            )
                        } else {
                            ConstantInfoView::InvokeDynamic(
                                InvokeDynamic {
                                    bootstrap_method_attr_index: first,
                                    name_and_type_index: second,
                                },
                            )
                        },
                        at + 4,
                    ),
                )
            }
        } else if tag == 5 || tag == 6 {
            if !in_bounds(bytes, at, 8) {
                Err(ReadError::UnexpectedEof)
            } else if tag == 5 {
                Ok((ConstantInfoView::Long(i64_of(be_u64(bytes, at))), at + 8))
            } else {
                Ok((ConstantInfoView::Double(be_u64(bytes, at)), at + 8))
            }
        } else if tag == 7 || tag == 8 || tag == 16 || tag == 19 || tag == 20 {
            if !in_bounds(bytes, at, 2) {
                Err(ReadError::UnexpectedEof)
            } else {
                let index = be_u16(bytes, at);
                Ok(
                    (
                        if tag == 7 {
                            ConstantInfoView::Class(Class { name_index: index })
                        } else if tag == 8 {
                            ConstantInfoView::String(StringEntry { string_index: index })
                        } else if tag == 16 {
                            ConstantInfoView::MethodType(MethodType { descriptor_index: index })
                        } else if tag == 19 {
                            ConstantInfoView::Module(Module { name_index: index })
                        } else {
                            ConstantInfoView::Package(Package { name_index: index })
                        },
                        at + 2,
                    ),
                )
            }
        } else if tag == 15 {
            if !in_bounds(bytes, at, 3) {
                Err(ReadError::UnexpectedEof)
            } else {
                Ok(
                    (
                        ConstantInfoView::MethodHandle(
                            MethodHandle {
                                reference_kind: bytes[at],
                                reference_index: be_u16(bytes, at + 1),
                            },
                        ),
                        at + 3,
                    ),
                )
            }
        } else {
            Err(ReadError::UnknownConstantTag(tag))
        }
    }
}

/// The number of pool indices that one constant takes: two for a long or a
/// double, else one.
pub open spec fn slot_count(constant: ConstantInfoView) -> int {
    if constant is Long || constant is Double {
        2
    } else {
        1
    }
}

/// The pool entries that one constant fills: itself and, for a long or a
/// double, the unused entry after it.
pub open spec fn pool_slots(constant: ConstantInfoView) -> Seq<ConstantInfoView> {
    if constant is Long || constant is Double {
        seq![constant, ConstantInfoView::Unused]
    } else {
        seq![constant]
    }
}

/// The pool that starts with `done` and goes on with the constants stored
/// from `pos` on, until the entry with index `count` would be next; and where
/// the last constant ends.
pub open spec fn constants_from(
    bytes: Seq<u8>,
    pos: int,
    index: int,
    count: int,
    done: Seq<ConstantInfoView>,
) -> Result<(Seq<ConstantInfoView>, int), ReadError>
    decreases count + 1 - index,
{
    if index >= count {
        Ok((done, pos))
    } else {
        match constant_at(bytes, pos) {
            Err(e) => Err(e),
            Ok((constant, next)) => constants_from(
                bytes,
                next,
                index + slot_count(constant),
                count,
                done + pool_slots(constant),
            ),
        }
    }
}

/// The constant pool that is stored at `pos`: its count, then its constants.
pub open spec fn constant_pool_at(bytes: Seq<u8>, pos: int) -> Result<
    (Seq<ConstantInfoView>, int),
    ReadError,
> {
    if !in_bounds(bytes, pos, 2) {
        Err(ReadError::UnexpectedEof)
    } else {
        constants_from(bytes, pos + 2, 1, be_u16(bytes, pos) as int, Seq::empty())
    }
}

/// Reads one byte.
fn take_u8(bytes: &[u8], pos: usize) -> (r: Result<(u8, usize), ReadError>)
    ensures
        match r {
            Ok((v, next)) => in_bounds(bytes@, pos as int, 1) && v == bytes@[pos as int] && next
                == pos + 1,
            Err(e) => !in_bounds(bytes@, pos as int, 1) && e == ReadError::UnexpectedEof,
        },
{
    match u8_at(bytes, pos) {
        Some(v) => Ok((v, pos + 1)),
        None => Err(ReadError::UnexpectedEof),
    }
}

/// Reads a 16-bit number.
fn take_u16(bytes: &[u8], pos: usize) -> (r: Result<(u16, usize), ReadError>)
    ensures
        match r {
            Ok((v, next)) => in_bounds(bytes@, pos as int, 2) && v == be_u16(bytes@, pos as int)
                && next == pos + 2,
            Err(e) => !in_bounds(bytes@, pos as int, 2) && e == ReadError::UnexpectedEof,
        },
{
    match u16_at(bytes, pos) {
        Some(v) => Ok((v, pos + 2)),
        None => Err(ReadError::UnexpectedEof),
    }
}

/// Reads a 32-bit number.
fn take_u32(bytes: &[u8], pos: usize) -> (r: Result<(u32, usize), ReadError>)
    ensures
        match r {
            Ok((v, next)) => in_bounds(bytes@, pos as int, 4) && v == be_u32(bytes@, pos as int)
                && next == pos + 4,
            Err(e) => !in_bounds(bytes@, pos as int, 4) && e == ReadError::UnexpectedEof,
        },
{
    match u32_at(bytes, pos) {
        Some(v) => Ok((v, pos + 4)),
        None => Err(ReadError::UnexpectedEof),
    }
}

/// Reads a 64-bit number.
fn take_u64(bytes: &[u8], pos: usize) -> (r: Result<(u64, usize), ReadError>)
    ensures
        match r {
            Ok((v, next)) => in_bounds(bytes@, pos as int, 8) && v == be_u64(bytes@, pos as int)
                && next == pos + 8,
            Err(e) => !in_bounds(bytes@, pos as int, 8) && e == ReadError::UnexpectedEof,
        },
{
    match u64_at(bytes, pos) {
        Some(v) => Ok((v, pos + 8)),
        None => Err(ReadError::UnexpectedEof),
    }
}

/// Copies `length` bytes out of the file.
fn take_bytes(bytes: &[u8], pos: usize, length: usize) -> (r: Result<(Vec<u8>, usize), ReadError>)
    requires
        pos <= bytes.len(),
    ensures
        match r {
            Ok((v, next)) => in_bounds(bytes@, pos as int, length as int) && v@
                == bytes@.subrange(pos as int, pos + length) && next == pos + length,
            Err(e) => !in_bounds(bytes@, pos as int, length as int) && e
                == ReadError::UnexpectedEof,
        },
{
    if bytes.len() - pos < length {
        Err(ReadError::UnexpectedEof)
    } else {
        Ok((slice_to_vec(slice_subrange(bytes, pos, pos + length)), pos + length))
    }
}

/// Reads the text of a utf-8 constant: its length, then its bytes.
fn read_utf8(bytes: &[u8], pos: usize) -> (r: Result<(String, usize), ReadError>)
    requires
        1 <= pos <= bytes.len(),
        bytes@[pos - 1] == 1,
    ensures
        match r {
            Ok((text, next)) => constant_at(bytes@, pos - 1) matches Ok((constant, end))
                && constant == ConstantInfoView::Utf8(text@) && end == next,
            Err(e) => constant_at(bytes@, pos - 1) matches Err(err) && err == e,
        },
{
    let (length, pos) = take_u16(bytes, pos)?;
    let (encoded, pos) = take_bytes(bytes, pos, length as usize)?;
    match string_from_utf8(encoded) {
        Some(text) => Ok((text, pos)),
        None => Err(ReadError::InvalidUtf8),
    }
}

/// Reads the constant stored at `pos`.
fn read_constant(bytes: &[u8], pos: usize) -> (r: Result<(ConstantInfo, usize), ReadError>)
    ensures
        match r {
            Ok((constant, next)) => constant_at(bytes@, pos as int) matches Ok((view, end))
                && view == constant@ && end == next,
            Err(e) => constant_at(bytes@, pos as int) matches Err(err) && err == e,
        },
{
    let (tag, at) = take_u8(bytes, pos)?;
    match tag {
        1 => {
            let (text, next) = read_utf8(bytes, at)?;
            Ok((ConstantInfo::Utf8(text), next))
        },
        3 => {
            let (v, next) = take_u32(bytes, at)?;
            Ok((ConstantInfo::Integer(u32_to_i32(v)), next))
        },
        4 => {
            let (v, next) = take_u32(bytes, at)?;
            Ok((ConstantInfo::Float(v), next))
        },
        5 => {
            let (v, next) = take_u64(bytes, at)?;
            Ok((ConstantInfo::Long(u64_to_i64(v)), next))
        },
        6 => {
            let (v, next) = take_u64(bytes, at)?;
            Ok((ConstantInfo::Double(v), next))
        },
        7 => {
            let (name_index, next) = take_u16(bytes, at)?;
            Ok((ConstantInfo::Class(Class { name_index }), next))
        },
        8 => {
            let (string_index, next) = take_u16(bytes, at)?;
            Ok((ConstantInfo::String(StringEntry { string_index }), next))
        },
        9 => {
            let (class_index, at) = take_u16(bytes, at)?;
            let (name_and_type_index, next) = take_u16(bytes, at)?;
            Ok((ConstantInfo::FieldRef(FieldRef { class_index, name_and_type_index }), next))
        },
        10 => {
            let (class_index, at) = take_u16(bytes, at)?;
            let (name_and_type_index, next) = take_u16(bytes, at)?;
            Ok((ConstantInfo::MethodRef(MethodRef { class_index, name_and_type_index }), next))
        },
        11 => {
            let (class_index, at) = take_u16(bytes, at)?;
            let (name_and_type_index, next) = take_u16(bytes, at)?;
            Ok(
                (
                    ConstantInfo::InterfaceMethodRef(
                        MethodRef { class_index, name_and_type_index },
                    ),
                    next,
                ),
            )
        },
        12 => {
            let (name_index, at) = take_u16(bytes, at)?;
            let (descriptor_index, next) = take_u16(bytes, at)?;
            Ok((ConstantInfo::NameAndType(NameAndType { name_index, descriptor_index }), next))
        },
        15 => {
            let (reference_kind, at) = take_u8(bytes, at)?;
            let (reference_index, next) = take_u16(bytes, at)?;
            Ok(
                (
                    ConstantInfo::MethodHandle(MethodHandle { reference_kind, reference_index }),
                    next,
                ),
            )
        },
        16 => {
            let (descriptor_index, next) = take_u16(bytes, at)?;
            Ok((ConstantInfo::MethodType(MethodType { descriptor_index }), next))
        },
        17 => {
            let (bootstrap_method_attr_index, at) = take_u16(bytes, at)?;
            let (name_and_type_index, next) = take_u16(bytes, at)?;
            Ok(
                (
                    ConstantInfo::Dynamic(
                        Dynamic { bootstrap_method_attr_index, name_and_type_index },
                    ),
                    next,
                ),
            )
        },
        18 => {
            let (bootstrap_method_attr_index, at) = take_u16(bytes, at)?;
            let (name_and_type_index, next) = take_u16(bytes, at)?;
            Ok(
                (
                    ConstantInfo::InvokeDynamic(
                        InvokeDynamic { bootstrap_method_attr_index, name_and_type_index },
                    ),
                    next,
                ),
            )
        },
        19 => {
            let (name_index, next) = take_u16(bytes, at)?;
            Ok((ConstantInfo::Module(Module { name_index }), next))
        },
        20 => {
            let (name_index, next) = take_u16(bytes, at)?;
            Ok((ConstantInfo::Package(Package { name_index }), next))
        },
        _ => Err(ReadError::UnknownConstantTag(tag)),
    }
}

/// Reads the constant pool stored at `pos`.
///
/// A long or a double takes two indices: the reader puts an unused entry
/// after it, so that every later entry stands at the place its index names.
fn read_constant_pool(bytes: &[u8], pos: usize) -> (r: Result<(ConstantPool, usize), ReadError>)
    ensures
        match r {
            Ok((pool, next)) => constant_pool_at(bytes@, pos as int) matches Ok((view, end))
                && view == pool@ && end == next,
            Err(e) => constant_pool_at(bytes@, pos as int) matches Err(err) && err == e,
        },
{
    let (count, start) = take_u16(bytes, pos)?;
    let mut entries: Vec<ConstantInfo> = Vec::new();
    let mut at: usize = start;
    let mut index: u32 = 1;
    let ghost whole = constant_pool_at(bytes@, pos as int);
    assert(entries@.map_values(|entry: ConstantInfo| entry@) =~= Seq::<ConstantInfoView>::empty());
    while index < count as u32
        invariant
            1 <= index <= count + 1,
            whole == constant_pool_at(bytes@, pos as int),
            whole == constants_from(
                bytes@,
                at as int,
                index as int,
                count as int,
                entries@.map_values(|entry: ConstantInfo| entry@),
            ),
        decreases count + 1 - index,
    {
        let ghost before = entries@.map_values(|entry: ConstantInfo| entry@);
        let (constant, next) = read_constant(bytes, at)?;
        let ghost view = constant@;
        let wide = match constant {
            ConstantInfo::Long(_) => true,
            ConstantInfo::Double(_) => true,
            _ => false,
        };
        entries.push(constant);
        if wide {
            entries.push(ConstantInfo::Unused);
            index = index + 2;
        } else {
            index = index + 1;
        }
        proof {
            assert(entries@.map_values(|entry: ConstantInfo| entry@) =~= before + pool_slots(view));
        }
        at = next;
    }
    Ok((ConstantPool(entries), at))
}

/// The `n` 16-bit numbers stored in a row from `pos` on.
pub open spec fn u16s_at(bytes: Seq<u8>, pos: int, n: int) -> Result<(Seq<u16>, int), ReadError> {
    if in_bounds(bytes, pos, 2 * n) {
        Ok((Seq::new(n as nat, |k: int| be_u16(bytes, pos + 2 * k)), pos + 2 * n))
    } else {
        Err(ReadError::UnexpectedEof)
    }
}

/// A count and that many 16-bit numbers, stored at `pos`.
pub open spec fn counted_u16s_at(bytes: Seq<u8>, pos: int) -> Result<(Seq<u16>, int), ReadError> {
    if in_bounds(bytes, pos, 2) {
        u16s_at(bytes, pos + 2, be_u16(bytes, pos) as int)
    } else {
        Err(ReadError::UnexpectedEof)
    }
}

/// Reads a count and that many 16-bit numbers: the interfaces of a class,
/// or the arguments of a bootstrap method.
fn read_counted_u16s(bytes: &[u8], pos: usize) -> (r: Result<(Vec<u16>, usize), ReadError>)
    ensures
        match r {
            Ok((values, next)) => counted_u16s_at(bytes@, pos as int) matches Ok((view, end))
                && view == values@ && end == next,
            Err(e) => counted_u16s_at(bytes@, pos as int) matches Err(err) && err == e,
        },
{
    let (count, start) = take_u16(bytes, pos)?;
    let mut values: Vec<u16> = Vec::new();
    let mut at: usize = start;
    let mut i: u16 = 0;
    while i < count
        invariant
            i <= count,
            start <= bytes.len(),
            in_bounds(bytes@, pos as int, 2),
            count == be_u16(bytes@, pos as int),
            start == pos + 2,
            at == start + 2 * i,
            at <= bytes.len(),
            values@ == Seq::new(i as nat, |k: int| be_u16(bytes@, start + 2 * k)),
        decreases count - i,
    {
        let (value, next) = take_u16(bytes, at)?;
        values.push(value);
        assert(values@ =~= Seq::new((i + 1) as nat, |k: int| be_u16(bytes@, start + 2 * k)));
        at = next;
        i = i + 1;
    }
    Ok((values, at))
}

/// The exception table stored at `pos`: a count and that many entries of
/// four 16-bit numbers.
pub open spec fn exception_table_at(bytes: Seq<u8>, pos: int) -> Result<
    (Seq<ExceptionTableEntry>, int),
    ReadError,
> {
    if !in_bounds(bytes, pos, 2) {
        Err(ReadError::UnexpectedEof)
    } else if !in_bounds(bytes, pos + 2, 8 * be_u16(bytes, pos)) {
        Err(ReadError::UnexpectedEof)
    } else {
        Ok(
            (
                Seq::new(
                    be_u16(bytes, pos) as nat,
                    |k: int|
                        ExceptionTableEntry {
                            start_pc: be_u16(bytes, pos + 2 + 8 * k),
                            end_pc: be_u16(bytes, pos + 4 + 8 * k),
                            handler_pc: be_u16(bytes, pos + 6 + 8 * k),
                            catch_type: be_u16(bytes, pos + 8 + 8 * k),
                        },
                ),
                pos + 2 + 8 * be_u16(bytes, pos),
            ),
        )
    }
}

/// The line-number table stored at `pos`: a count and that many pairs of
/// 16-bit numbers.
pub open spec fn line_number_table_at(bytes: Seq<u8>, pos: int) -> Result<
    (Seq<LineNumberTableEntry>, int),
    ReadError,
> {
    if !in_bounds(bytes, pos, 2) {
        Err(ReadError::UnexpectedEof)
    } else if !in_bounds(bytes, pos + 2, 4 * be_u16(bytes, pos)) {
        Err(ReadError::UnexpectedEof)
    } else {
        Ok(
            (
                Seq::new(
                    be_u16(bytes, pos) as nat,
                    |k: int|
                        LineNumberTableEntry {
                            start_pc: be_u16(bytes, pos + 2 + 4 * k),
                            line_number: be_u16(bytes, pos + 4 + 4 * k),
                        },
                ),
                pos + 2 + 4 * be_u16(bytes, pos),
            ),
        )
    }
}

/// The inner-class table stored at `pos`: a count and that many entries of
/// four 16-bit numbers, the last of them access flags.
pub open spec fn inner_classes_at(bytes: Seq<u8>, pos: int) -> Result<
    (Seq<InnerClass>, int),
    ReadError,
> {
    if !in_bounds(bytes, pos, 2) {
        Err(ReadError::UnexpectedEof)
    } else if !in_bounds(bytes, pos + 2, 8 * be_u16(bytes, pos)) {
        Err(ReadError::UnexpectedEof)
    } else {
        Ok(
            (
                Seq::new(
                    be_u16(bytes, pos) as nat,
                    |k: int|
                        InnerClass {
                            inner_class_info_index: be_u16(bytes, pos + 2 + 8 * k),
                            outer_class_info_index: be_u16(bytes, pos + 4 + 8 * k),
                            inner_name_index: be_u16(bytes, pos + 6 + 8 * k),
                            inner_class_access_flags: InnerClassAccessFlags::truncated(
                                be_u16(bytes, pos + 8 + 8 * k),
                            ),
                        },
                ),
                pos + 2 + 8 * be_u16(bytes, pos),
            ),
        )
    }
}

/// The bootstrap methods that follow `done`: `n` of them, stored from `pos`
/// on, each a method reference and a counted row of arguments.
pub open spec fn bootstrap_methods_from(
    bytes: Seq<u8>,
    pos: int,
    n: int,
    done: Seq<BootstrapMethodView>,
) -> Result<(Seq<BootstrapMethodView>, int), ReadError>
    decreases n,
{
    if n <= 0 {
        Ok((done, pos))
    } else if !in_bounds(bytes, pos, 2) {
        Err(ReadError::UnexpectedEof)
    } else {
        match counted_u16s_at(bytes, pos + 2) {
            Err(e) => Err(e),
            Ok((arguments, next)) => bootstrap_methods_from(
                bytes,
                next,
                n - 1,
                done.push(
                    BootstrapMethodView {
                        bootstrap_method_ref: be_u16(bytes, pos),
                        bootstrap_arguments: arguments,
                    },
                ),
            ),
        }
    }
}

/// The bootstrap-method table stored at `pos`.
pub open spec fn bootstrap_methods_at(bytes: Seq<u8>, pos: int) -> Result<
    (Seq<BootstrapMethodView>, int),
    ReadError,
> {
    if !in_bounds(bytes, pos, 2) {
        Err(ReadError::UnexpectedEof)
    } else {
        bootstrap_methods_from(bytes, pos + 2, be_u16(bytes, pos) as int, Seq::empty())
    }
}

/// The attribute stored at `pos`, and where it ends.
///
/// An attribute starts with the index of its name and a length. Which
/// attribute it is goes by the name. An attribute of a known name is read by
/// its own layout; one of any other name is kept as the bytes that the length
/// announces.
pub open spec fn attribute_at(bytes: Seq<u8>, pos: int, pool: Seq<ConstantInfoView>) -> Result<
    (AttributeInfoView, int),
    ReadError,
>
    decreases bytes.len() - pos, 0int,
{
    if !in_bounds(bytes, pos, 6) {
        Err(ReadError::UnexpectedEof)
    } else {
        let name_index = be_u16(bytes, pos);
        let length = be_u32(bytes, pos + 2) as int;
        let body = pos + 6;
        match pool_entry(pool, name_index) {
            Some(ConstantInfoView::Utf8(name)) => if name == "Code"@ {
                code_attribute_at(bytes, body, pool)
            } else if name == "LineNumberTable"@ {
                match line_number_table_at(bytes, body) {
                    Err(e) => Err(e),
                    Ok((table, end)) => Ok((AttributeInfoView::LineNumberTable(table), end)),
                }
            } else if name == "BootstrapMethods"@ {
                match bootstrap_methods_at(bytes, body) {
                    Err(e) => Err(e),
                    Ok((methods, end)) => Ok((AttributeInfoView::BootstrapMethods(methods), end)),
                }
            } else if name == "InnerClasses"@ {
                match inner_classes_at(bytes, body) {
                    Err(e) => Err(e),
                    Ok((classes, end)) => Ok((AttributeInfoView::InnerClasses(classes), end)),
                }
            } else if name == "SourceFile"@ {
                if in_bounds(bytes, body, 2) {
                    Ok(
                        (
                            AttributeInfoView::SourceFile(
                                SourceFileAttribute { sourcefile_index: be_u16(bytes, body) },
                            ),
                            body + 2,
                        ),
                    )
                } else {
                    Err(ReadError::UnexpectedEof)
                }
            } else if in_bounds(bytes, body, length) {
                Ok(
                    (
                        AttributeInfoView::Custom {
                            attribute_name_index: name_index,
                            info: bytes.subrange(body, body + length),
                        },
                        body + length,
                    ),
                )
            } else {
                Err(ReadError::UnexpectedEof)
            },
            _ => Err(ReadError::InvalidAttributeName(name_index)),
        }
    }
}

/// The body of a `Code` attribute stored at `pos`: the stack and locals
/// limits, the code as it stands, the exception table and the attributes of
/// the code.
pub open spec fn code_attribute_at(
    bytes: Seq<u8>,
    pos: int,
    pool: Seq<ConstantInfoView>,
) -> Result<(AttributeInfoView, int), ReadError>
    decreases bytes.len() - pos, 0int,
{
    if !in_bounds(bytes, pos, 8) {
        Err(ReadError::UnexpectedEof)
    } else if !in_bounds(bytes, pos + 8, be_u32(bytes, pos + 4) as int) {
        Err(ReadError::UnexpectedEof)
    } else {
        let code_end = pos + 8 + be_u32(bytes, pos + 4);
        match exception_table_at(bytes, code_end) {
            Err(e) => Err(e),
            Ok((exception_table, after)) => if pos < after <= bytes.len() {
                match attributes_at(bytes, after, pool) {
                    Err(e) => Err(e),
                    Ok((attributes, end)) => Ok(
                        (
                            AttributeInfoView::Code {
                                max_stack: be_u16(bytes, pos),
                                max_locals: be_u16(bytes, pos + 2),
                                code: bytes.subrange(pos + 8, code_end),
                                exception_table,
                                attributes,
                            },
                            end,
                        ),
                    ),
                }
            } else {
                Err(ReadError::UnexpectedEof)
            },
        }
    }
}

/// The attributes that follow `done`: `n` of them, stored from `pos` on.
pub open spec fn attributes_from(
    bytes: Seq<u8>,
    pos: int,
    pool: Seq<ConstantInfoView>,
    n: int,
    done: Seq<AttributeInfoView>,
) -> Result<(Seq<AttributeInfoView>, int), ReadError>
    decreases bytes.len() - pos, n + 1,
{
    if n <= 0 {
        Ok((done, pos))
    } else {
        match attribute_at(bytes, pos, pool) {
            Err(e) => Err(e),
            Ok((attribute, next)) => if pos <= next <= bytes.len() {
                attributes_from(bytes, next, pool, n - 1, done.push(attribute))
            } else {
                Err(ReadError::UnexpectedEof)
            },
        }
    }
}

/// A count and that many attributes, stored at `pos`.
pub open spec fn attributes_at(bytes: Seq<u8>, pos: int, pool: Seq<ConstantInfoView>) -> Result<
    (Seq<AttributeInfoView>, int),
    ReadError,
>
    decreases bytes.len() - pos, 0int,
{
    if !in_bounds(bytes, pos, 2) {
        Err(ReadError::UnexpectedEof)
    } else {
        attributes_from(bytes, pos + 2, pool, be_u16(bytes, pos) as int, Seq::empty())
    }
}

/// An attribute ends after the place it starts at, and within the file.
pub proof fn lemma_attribute_extent(bytes: Seq<u8>, pos: int, pool: Seq<ConstantInfoView>)
    ensures
        attribute_at(bytes, pos, pool) matches Ok((_, end)) ==> pos < end <= bytes.len(),
    decreases bytes.len() - pos, 0int,
{
    if in_bounds(bytes, pos, 6) {
        match pool_entry(pool, be_u16(bytes, pos)) {
            Some(ConstantInfoView::Utf8(name)) => {
                if name == "Code"@ {
                    lemma_code_attribute_extent(bytes, pos + 6, pool);
                } else if name == "BootstrapMethods"@ {
                    if in_bounds(bytes, pos + 6, 2) {
                        lemma_bootstrap_methods_extent(
                            bytes,
                            pos + 8,
                            be_u16(bytes, pos + 6) as int,
                            Seq::empty(),
                        );
                    }
                }
            },
            _ => {},
        }
    }
}

/// The body of a `Code` attribute ends after the place it starts at, and
/// within the file.
pub proof fn lemma_code_attribute_extent(bytes: Seq<u8>, pos: int, pool: Seq<ConstantInfoView>)
    ensures
        code_attribute_at(bytes, pos, pool) matches Ok((_, end)) ==> pos < end <= bytes.len(),
    decreases bytes.len() - pos, 0int,
{
    if in_bounds(bytes, pos, 8) && in_bounds(bytes, pos + 8, be_u32(bytes, pos + 4) as int) {
        let code_end = pos + 8 + be_u32(bytes, pos + 4);
        match exception_table_at(bytes, code_end) {
            Err(e) => {},
            Ok((exception_table, after)) => {
                if pos < after <= bytes.len() {
                    lemma_attributes_extent(bytes, after, pool);
                }
            },
        }
    }
}

/// A row of attributes ends at or after the place it starts at, and within
/// the file.
pub proof fn lemma_attributes_from_extent(
    bytes: Seq<u8>,
    pos: int,
    pool: Seq<ConstantInfoView>,
    n: int,
    done: Seq<AttributeInfoView>,
)
    requires
        0 <= pos <= bytes.len(),
    ensures
        attributes_from(bytes, pos, pool, n, done) matches Ok((_, end)) ==> pos <= end
            <= bytes.len(),
    decreases bytes.len() - pos, n + 1,
{
    if n > 0 {
        lemma_attribute_extent(bytes, pos, pool);
        match attribute_at(bytes, pos, pool) {
            Err(e) => {},
            Ok((attribute, next)) => {
                lemma_attributes_from_extent(bytes, next, pool, n - 1, done.push(attribute));
            },
        }
    }
}

/// A counted row of attributes ends after the place it starts at, and within
/// the file.
pub proof fn lemma_attributes_extent(bytes: Seq<u8>, pos: int, pool: Seq<ConstantInfoView>)
    ensures
        attributes_at(bytes, pos, pool) matches Ok((_, end)) ==> pos < end <= bytes.len(),
    decreases bytes.len() - pos, 0int,
{
    if in_bounds(bytes, pos, 2) {
        lemma_attributes_from_extent(
            bytes,
            pos + 2,
            pool,
            be_u16(bytes, pos) as int,
            Seq::empty(),
        );
    }
}

/// A row of bootstrap methods ends at or after the place it starts at, and
/// within the file.
pub proof fn lemma_bootstrap_methods_extent(
    bytes: Seq<u8>,
    pos: int,
    n: int,
    done: Seq<BootstrapMethodView>,
)
    requires
        0 <= pos <= bytes.len(),
    ensures
        bootstrap_methods_from(bytes, pos, n, done) matches Ok((_, end)) ==> pos <= end
            <= bytes.len(),
    decreases n,
{
    if n > 0 && in_bounds(bytes, pos, 2) {
        match counted_u16s_at(bytes, pos + 2) {
            Err(e) => {},
            Ok((arguments, next)) => {
                lemma_bootstrap_methods_extent(
                    bytes,
                    next,
                    n - 1,
                    done.push(
                        BootstrapMethodView {
                            bootstrap_method_ref: be_u16(bytes, pos),
                            bootstrap_arguments: arguments,
                        },
                    ),
                );
            },
        }
    }
}

/// Reads the exception table of a `Code` attribute.
fn read_exception_table(bytes: &[u8], pos: usize) -> (r: Result<
    (Vec<ExceptionTableEntry>, usize),
    ReadError,
>)
    ensures
        match r {
            Ok((table, next)) => exception_table_at(bytes@, pos as int) matches Ok((view, end))
                && view == table@ && end == next,
            Err(e) => exception_table_at(bytes@, pos as int) matches Err(err) && err == e,
        },
{
    let (count, start) = take_u16(bytes, pos)?;
    let mut table: Vec<ExceptionTableEntry> = Vec::new();
    let mut at: usize = start;
    let mut i: u16 = 0;
    while i < count
        invariant
            i <= count,
            in_bounds(bytes@, pos as int, 2),
            count == be_u16(bytes@, pos as int),
            start == pos + 2,
            at == start + 8 * i,
            at <= bytes.len(),
            exception_table_at(bytes@, pos as int) is Ok ==> table@ =~= exception_table_at(
                bytes@,
                pos as int,
            ).unwrap().0.subrange(0, i as int),
        decreases count - i,
    {
        let (start_pc, next) = take_u16(bytes, at)?;
        let (end_pc, next) = take_u16(bytes, next)?;
        let (handler_pc, next) = take_u16(bytes, next)?;
        let (catch_type, next) = take_u16(bytes, next)?;
        table.push(ExceptionTableEntry { start_pc, end_pc, handler_pc, catch_type });
        at = next;
        i = i + 1;
    }
    Ok((table, at))
}

/// Reads the body of a `LineNumberTable` attribute.
fn read_line_number_table_attribute(bytes: &[u8], pos: usize) -> (r: Result<
    (LineNumberTableAttribute, usize),
    ReadError,
>)
    ensures
        match r {
            Ok((table, next)) => line_number_table_at(bytes@, pos as int) matches Ok((view, end))
                && view == table.line_number_table@ && end == next,
            Err(e) => line_number_table_at(bytes@, pos as int) matches Err(err) && err == e,
        },
{
    let (count, start) = take_u16(bytes, pos)?;
    let mut table: Vec<LineNumberTableEntry> = Vec::new();
    let mut at: usize = start;
    let mut i: u16 = 0;
    while i < count
        invariant
            i <= count,
            in_bounds(bytes@, pos as int, 2),
            count == be_u16(bytes@, pos as int),
            start == pos + 2,
            at == start + 4 * i,
            at <= bytes.len(),
            line_number_table_at(bytes@, pos as int) is Ok ==> table@ =~= line_number_table_at(
                bytes@,
                pos as int,
            ).unwrap().0.subrange(0, i as int),
        decreases count - i,
    {
        let (start_pc, next) = take_u16(bytes, at)?;
        let (line_number, next) = take_u16(bytes, next)?;
        table.push(LineNumberTableEntry { start_pc, line_number });
        at = next;
        i = i + 1;
    }
    Ok((LineNumberTableAttribute { line_number_table: table }, at))
}

/// Reads the body of an `InnerClasses` attribute.
fn read_inner_classes_attribute(bytes: &[u8], pos: usize) -> (r: Result<
    (InnerClassesAttribute, usize),
    ReadError,
>)
    ensures
        match r {
            Ok((classes, next)) => inner_classes_at(bytes@, pos as int) matches Ok((view, end))
                && view == classes.classes@ && end == next,
            Err(e) => inner_classes_at(bytes@, pos as int) matches Err(err) && err == e,
        },
{
    let (count, start) = take_u16(bytes, pos)?;
    let mut classes: Vec<InnerClass> = Vec::new();
    let mut at: usize = start;
    let mut i: u16 = 0;
    while i < count
        invariant
            i <= count,
            in_bounds(bytes@, pos as int, 2),
            count == be_u16(bytes@, pos as int),
            start == pos + 2,
            at == start + 8 * i,
            at <= bytes.len(),
            inner_classes_at(bytes@, pos as int) is Ok ==> classes@ =~= inner_classes_at(
                bytes@,
                pos as int,
            ).unwrap().0.subrange(0, i as int),
        decreases count - i,
    {
        let (inner_class_info_index, next) = take_u16(bytes, at)?;
        let (outer_class_info_index, next) = take_u16(bytes, next)?;
        let (inner_name_index, next) = take_u16(bytes, next)?;
        let (flags, next) = take_u16(bytes, next)?;
        classes.push(
            InnerClass {
                inner_class_info_index,
                outer_class_info_index,
                inner_name_index,
                inner_class_access_flags: InnerClassAccessFlags::from_bits_truncate(flags),
            },
        );
        at = next;
        i = i + 1;
    }
    Ok((InnerClassesAttribute { classes }, at))
}

/// Reads the body of a `BootstrapMethods` attribute.
fn read_bootstrap_methods_attribute(bytes: &[u8], pos: usize) -> (r: Result<
    (BootstrapMethodsAttribute, usize),
    ReadError,
>)
    ensures
        match r {
            Ok((methods, next)) => bootstrap_methods_at(bytes@, pos as int) matches Ok((view, end))
                && view == methods.bootstrap_methods@.map_values(|m: BootstrapMethod| m@) && end
                == next,
            Err(e) => bootstrap_methods_at(bytes@, pos as int) matches Err(err) && err == e,
        },
{
    let (count, start) = take_u16(bytes, pos)?;
    let mut methods: Vec<BootstrapMethod> = Vec::new();
    let mut at: usize = start;
    let mut i: u16 = 0;
    assert(methods@.map_values(|m: BootstrapMethod| m@) =~= Seq::<BootstrapMethodView>::empty());
    while i < count
        invariant
            i <= count,
            bootstrap_methods_at(bytes@, pos as int) == bootstrap_methods_from(
                bytes@,
                at as int,
                count - i,
                methods@.map_values(|m: BootstrapMethod| m@),
            ),
        decreases count - i,
    {
        let ghost before = methods@.map_values(|m: BootstrapMethod| m@);
        let (bootstrap_method_ref, next) = take_u16(bytes, at)?;
        let (bootstrap_arguments, next) = read_counted_u16s(bytes, next)?;
        let method = BootstrapMethod { bootstrap_method_ref, bootstrap_arguments };
        let ghost view = method@;
        methods.push(method);
        assert(methods@.map_values(|m: BootstrapMethod| m@) =~= before.push(view));
        at = next;
        i = i + 1;
    }
    Ok((BootstrapMethodsAttribute { bootstrap_methods: methods }, at))
}

/// Reads the body of a `SourceFile` attribute.
fn read_source_file_attribute(bytes: &[u8], pos: usize) -> (r: Result<
    (SourceFileAttribute, usize),
    ReadError,
>)
    ensures
        match r {
            Ok((source, next)) => in_bounds(bytes@, pos as int, 2) && source.sourcefile_index
                == be_u16(bytes@, pos as int) && next == pos + 2,
            Err(e) => !in_bounds(bytes@, pos as int, 2) && e == ReadError::UnexpectedEof,
        },
{
    let (sourcefile_index, next) = take_u16(bytes, pos)?;
    Ok((SourceFileAttribute { sourcefile_index }, next))
}

/// Reads the attribute stored at `pos`.
fn read_attribute_info(bytes: &[u8], pos: usize, pool: &ConstantPool) -> (r: Result<
    (AttributeInfo, usize),
    ReadError,
>)
    ensures
        match r {
            Ok((attribute, next)) => attribute_at(bytes@, pos as int, pool@) matches Ok(
                (view, end),
            ) && view == attribute@ && end == next && pos < next <= bytes.len(),
            Err(e) => attribute_at(bytes@, pos as int, pool@) matches Err(err) && err == e,
        },
    decreases bytes.len() - pos, 0int,
{
    proof {
        lemma_attribute_extent(bytes@, pos as int, pool@);
    }
    let (attribute_name_index, at) = take_u16(bytes, pos)?;
    let (length, body) = take_u32(bytes, at)?;
    let name = match pool.get(attribute_name_index) {
        Some(ConstantInfo::Utf8(name)) => name,
        _ => {
            return Err(ReadError::InvalidAttributeName(attribute_name_index));
        },
    };
    if str_eq(name.as_str(), "Code") {
        let (code, next) = read_code_attribute(bytes, body, pool)?;
        Ok((AttributeInfo::Code(code), next))
    } else if str_eq(name.as_str(), "LineNumberTable") {
        let (table, next) = read_line_number_table_attribute(bytes, body)?;
        Ok((AttributeInfo::LineNumberTable(table), next))
    } else if str_eq(name.as_str(), "BootstrapMethods") {
        let (methods, next) = read_bootstrap_methods_attribute(bytes, body)?;
        Ok((AttributeInfo::BootstrapMethods(methods), next))
    } else if str_eq(name.as_str(), "InnerClasses") {
        let (classes, next) = read_inner_classes_attribute(bytes, body)?;
        Ok((AttributeInfo::InnerClasses(classes), next))
    } else if str_eq(name.as_str(), "SourceFile") {
        let (source, next) = read_source_file_attribute(bytes, body)?;
        Ok((AttributeInfo::SourceFile(source), next))
    } else {
        let (info, next) = take_bytes(bytes, body, length as usize)?;
        Ok((AttributeInfo::Custom(CustomAttribute { attribute_name_index, info }), next))
    }
}

/// Reads the body of a `Code` attribute. The code is kept as the bytes that
/// stand in the file; decoding it into instructions is the linker's work.
fn read_code_attribute(bytes: &[u8], pos: usize, pool: &ConstantPool) -> (r: Result<
    (CodeAttribute, usize),
    ReadError,
>)
    ensures
        match r {
            Ok((code, next)) => code_attribute_at(bytes@, pos as int, pool@) matches Ok(
                (view, end),
            ) && view == code@ && end == next && pos < next <= bytes.len(),
            Err(e) => code_attribute_at(bytes@, pos as int, pool@) matches Err(err) && err == e,
        },
    decreases bytes.len() - pos, 0int,
{
    proof {
        lemma_code_attribute_extent(bytes@, pos as int, pool@);
    }
    let (max_stack, at) = take_u16(bytes, pos)?;
    let (max_locals, at) = take_u16(bytes, at)?;
    let (length, at) = take_u32(bytes, at)?;
    let (code, at) = take_bytes(bytes, at, length as usize)?;
    let (exception_table, at) = read_exception_table(bytes, at)?;
    let (attributes, next) = read_attributes(bytes, at, pool)?;
    Ok((CodeAttribute { max_stack, max_locals, code, exception_table, attributes }, next))
}

/// Reads a count and that many attributes.
fn read_attributes(bytes: &[u8], pos: usize, pool: &ConstantPool) -> (r: Result<
    (Vec<AttributeInfo>, usize),
    ReadError,
>)
    ensures
        match r {
            Ok((attributes, next)) => attributes_at(bytes@, pos as int, pool@) matches Ok(
                (view, end),
            ) && view == attributes_view(attributes@) && end == next && pos < next
                <= bytes.len(),
            Err(e) => attributes_at(bytes@, pos as int, pool@) matches Err(err) && err == e,
        },
    decreases bytes.len() - pos, 1int,
{
    let (count, start) = take_u16(bytes, pos)?;
    let mut attributes: Vec<AttributeInfo> = Vec::new();
    let mut at: usize = start;
    let mut i: u16 = 0;
    assert(attributes_view(attributes@) =~= Seq::<AttributeInfoView>::empty());
    while i < count
        invariant
            i <= count,
            pos < at <= bytes.len(),
            attributes_at(bytes@, pos as int, pool@) == attributes_from(
                bytes@,
                at as int,
                pool@,
                count - i,
                attributes_view(attributes@),
            ),
        decreases count - i,
    {
        let ghost before = attributes_view(attributes@);
        let (attribute, next) = read_attribute_info(bytes, at, pool)?;
        let ghost view = attribute@;
        attributes.push(attribute);
        assert(attributes_view(attributes@) =~= before.push(view));
        at = next;
        i = i + 1;
    }
    Ok((attributes, at))
}

/// The field stored at `pos`: its access flags, the indices of its name and
/// descriptor, and its attributes.
pub open spec fn field_at(bytes: Seq<u8>, pos: int, pool: Seq<ConstantInfoView>) -> Result<
    (FieldInfoView, int),
    ReadError,
> {
    if !in_bounds(bytes, pos, 6) {
        Err(ReadError::UnexpectedEof)
    } else {
        match attributes_at(bytes, pos + 6, pool) {
            Err(e) => Err(e),
            Ok((attributes, next)) => Ok(
                (
                    FieldInfoView {
                        access_flags: FieldAccessFlags::truncated(be_u16(bytes, pos)),
                        name_index: be_u16(bytes, pos + 2),
                        descriptor_index: be_u16(bytes, pos + 4),
                        attributes,
                    },
                    next,
                ),
            ),
        }
    }
}

/// The fields that follow `done`: `n` of them, stored from `pos` on.
pub open spec fn fields_from(
    bytes: Seq<u8>,
    pos: int,
    pool: Seq<ConstantInfoView>,
    n: int,
    done: Seq<FieldInfoView>,
) -> Result<(Seq<FieldInfoView>, int), ReadError>
    decreases n,
{
    if n <= 0 {
        Ok((done, pos))
    } else {
        match field_at(bytes, pos, pool) {
            Err(e) => Err(e),
            Ok((field, next)) => fields_from(bytes, next, pool, n - 1, done.push(field)),
        }
    }
}

/// A count and that many fields, stored at `pos`.
pub open spec fn fields_at(bytes: Seq<u8>, pos: int, pool: Seq<ConstantInfoView>) -> Result<
    (Seq<FieldInfoView>, int),
    ReadError,
> {
    if !in_bounds(bytes, pos, 2) {
        Err(ReadError::UnexpectedEof)
    } else {
        fields_from(bytes, pos + 2, pool, be_u16(bytes, pos) as int, Seq::empty())
    }
}

/// The method stored at `pos`: its access flags, the indices of its name and
/// descriptor, and its attributes.
pub open spec fn method_at(bytes: Seq<u8>, pos: int, pool: Seq<ConstantInfoView>) -> Result<
    (MethodInfoView, int),
    ReadError,
> {
    if !in_bounds(bytes, pos, 6) {
        Err(ReadError::UnexpectedEof)
    } else {
        match attributes_at(bytes, pos + 6, pool) {
            Err(e) => Err(e),
            Ok((attributes, next)) => Ok(
                (
                    MethodInfoView {
                        access_flags: MethodAccessFlags::truncated(be_u16(bytes, pos)),
                        name_index: be_u16(bytes, pos + 2),
                        descriptor_index: be_u16(bytes, pos + 4),
                        attributes,
                    },
                    next,
                ),
            ),
        }
    }
}

/// The methods that follow `done`: `n` of them, stored from `pos` on.
pub open spec fn methods_from(
    bytes: Seq<u8>,
    pos: int,
    pool: Seq<ConstantInfoView>,
    n: int,
    done: Seq<MethodInfoView>,
) -> Result<(Seq<MethodInfoView>, int), ReadError>
    decreases n,
{
    if n <= 0 {
        Ok((done, pos))
    } else {
        match method_at(bytes, pos, pool) {
            Err(e) => Err(e),
            Ok((method, next)) => methods_from(bytes, next, pool, n - 1, done.push(method)),
        }
    }
}

/// A count and that many methods, stored at `pos`.
pub open spec fn methods_at(bytes: Seq<u8>, pos: int, pool: Seq<ConstantInfoView>) -> Result<
    (Seq<MethodInfoView>, int),
    ReadError,
> {
    if !in_bounds(bytes, pos, 2) {
        Err(ReadError::UnexpectedEof)
    } else {
        methods_from(bytes, pos + 2, pool, be_u16(bytes, pos) as int, Seq::empty())
    }
}

/// What follows the constant pool in a class file, from `pos` on: the access
/// flags, the indices of the class and of its super class, the interfaces,
/// the fields, the methods and the attributes. `header` gives the version.
pub open spec fn class_body_at(
    bytes: Seq<u8>,
    pos: int,
    minor_version: u16,
    major_version: u16,
    pool: Seq<ConstantInfoView>,
) -> Result<(ClassFileView, int), ReadError> {
    if !in_bounds(bytes, pos, 6) {
        Err(ReadError::UnexpectedEof)
    } else {
        match counted_u16s_at(bytes, pos + 6) {
            Err(e) => Err(e),
            Ok((interfaces, fields_start)) => match fields_at(bytes, fields_start, pool) {
                Err(e) => Err(e),
                Ok((fields, methods_start)) => match methods_at(bytes, methods_start, pool) {
                    Err(e) => Err(e),
                    Ok((methods, attributes_start)) => match attributes_at(
                        bytes,
                        attributes_start,
                        pool,
                    ) {
                        Err(e) => Err(e),
                        Ok((attributes, end)) => Ok(
                            (
                                ClassFileView {
                                    minor_version,
                                    major_version,
                                    constant_pool: pool,
                                    access_flags: ClassAccessFlags::truncated(be_u16(bytes, pos)),
                                    this_class: be_u16(bytes, pos + 2),
                                    super_class: be_u16(bytes, pos + 4),
                                    interfaces,
                                    fields,
                                    methods,
                                    attributes,
                                },
                                end,
                            ),
                        ),
                    },
                },
            },
        }
    }
}

/// The class file that is stored at `pos`, and where it ends.
///
/// It starts with the magic number and the version; then come the constant
/// pool and the body of the class.
pub open spec fn class_file_at(bytes: Seq<u8>, pos: int) -> Result<(ClassFileView, int), ReadError> {
    if !in_bounds(bytes, pos, 4) {
        Err(ReadError::UnexpectedEof)
    } else if be_u32(bytes, pos) != MAGIC {
        Err(ReadError::BadMagic(be_u32(bytes, pos)))
    } else if !in_bounds(bytes, pos + 4, 4) {
        Err(ReadError::UnexpectedEof)
    } else {
        match constant_pool_at(bytes, pos + 8) {
            Err(e) => Err(e),
            Ok((pool, body)) => class_body_at(
                bytes,
                body,
                be_u16(bytes, pos + 4),
                be_u16(bytes, pos + 6),
                pool,
            ),
        }
    }
}

/// What a run of bytes holds as a class file, it holds whenever it is read:
/// two class files read from the same bytes at the same place agree in every
/// constant, field, method and attribute.
pub proof fn lemma_reading_is_repeatable(
    bytes: Seq<u8>,
    pos: int,
    first: ClassFileView,
    second: ClassFileView,
)
    requires
        class_file_at(bytes, pos) matches Ok((view, _)) && view == first,
        class_file_at(bytes, pos) matches Ok((view, _)) && view == second,
    ensures
        first == second,
        first.constant_pool == second.constant_pool,
        first.fields == second.fields,
        first.methods == second.methods,
        first.attributes == second.attributes,
{
}

/// In a pool that was read, the index after a long or a double holds the
/// unused entry.
pub open spec fn wide_constants_padded(pool: Seq<ConstantInfoView>) -> bool {
    forall|i: int|
        0 <= i < pool.len() && (#[trigger] pool[i] is Long || pool[i] is Double) ==> i + 1
            < pool.len() && pool[i + 1] is Unused
}

/// Reading more constants keeps a pool padded.
pub proof fn lemma_constants_padded(
    bytes: Seq<u8>,
    pos: int,
    index: int,
    count: int,
    done: Seq<ConstantInfoView>,
)
    requires
        wide_constants_padded(done),
        constants_from(bytes, pos, index, count, done) is Ok,
    ensures
        wide_constants_padded(constants_from(bytes, pos, index, count, done)->Ok_0.0),
    decreases count + 1 - index,
{
    if index < count {
        let (constant, next) = constant_at(bytes, pos)->Ok_0;
        let more = done + pool_slots(constant);
        assert forall|i: int|
            0 <= i < more.len() && (#[trigger] more[i] is Long || more[i] is Double) implies i + 1
            < more.len() && more[i + 1] is Unused by {
            if i < done.len() {
                assert(done[i] is Long || done[i] is Double);
                assert(more[i + 1] == done[i + 1]);
            }
        }
        lemma_constants_padded(bytes, next, index + slot_count(constant), count, more);
    }
}

/// The index after a long or a double never holds a value: in every pool
/// that the reader returns, it holds the unused entry.
pub proof fn lemma_pool_is_padded(bytes: Seq<u8>, pos: int)
    requires
        constant_pool_at(bytes, pos) is Ok,
    ensures
        wide_constants_padded(constant_pool_at(bytes, pos)->Ok_0.0),
{
    lemma_constants_padded(bytes, pos + 2, 1, be_u16(bytes, pos) as int, Seq::empty());
}

/// Reads one field.
fn read_field_info(bytes: &[u8], pos: usize, pool: &ConstantPool) -> (r: Result<
    (FieldInfo, usize),
    ReadError,
>)
    ensures
        match r {
            Ok((field, next)) => field_at(bytes@, pos as int, pool@) matches Ok((view, end))
                && view == field@ && end == next,
            Err(e) => field_at(bytes@, pos as int, pool@) matches Err(err) && err == e,
        },
{
    let (flags, at) = take_u16(bytes, pos)?;
    let (name_index, at) = take_u16(bytes, at)?;
    let (descriptor_index, at) = take_u16(bytes, at)?;
    let (attributes, next) = read_attributes(bytes, at, pool)?;
    let field = FieldInfo {
        access_flags: FieldAccessFlags::from_bits_truncate(flags),
        name_index,
        descriptor_index,
        attributes,
    };
    Ok((field, next))
}

/// Reads a count and that many fields.
fn read_fields(bytes: &[u8], pos: usize, pool: &ConstantPool) -> (r: Result<
    (Vec<FieldInfo>, usize),
    ReadError,
>)
    ensures
        match r {
            Ok((fields, next)) => fields_at(bytes@, pos as int, pool@) matches Ok((view, end))
                && view == fields@.map_values(|f: FieldInfo| f@) && end == next,
            Err(e) => fields_at(bytes@, pos as int, pool@) matches Err(err) && err == e,
        },
{
    let (count, start) = take_u16(bytes, pos)?;
    let mut fields: Vec<FieldInfo> = Vec::new();
    let mut at: usize = start;
    let mut i: u16 = 0;
    assert(fields@.map_values(|f: FieldInfo| f@) =~= Seq::<FieldInfoView>::empty());
    while i < count
        invariant
            i <= count,
            fields_at(bytes@, pos as int, pool@) == fields_from(
                bytes@,
                at as int,
                pool@,
                count - i,
                fields@.map_values(|f: FieldInfo| f@),
            ),
        decreases count - i,
    {
        let ghost before = fields@.map_values(|f: FieldInfo| f@);
        let (field, next) = read_field_info(bytes, at, pool)?;
        let ghost view = field@;
        fields.push(field);
        assert(fields@.map_values(|f: FieldInfo| f@) =~= before.push(view));
        at = next;
        i = i + 1;
    }
    Ok((fields, at))
}

/// Reads one method.
fn read_method_info(bytes: &[u8], pos: usize, pool: &ConstantPool) -> (r: Result<
    (MethodInfo, usize),
    ReadError,
>)
    ensures
        match r {
            Ok((method, next)) => method_at(bytes@, pos as int, pool@) matches Ok((view, end))
                && view == method@ && end == next,
            Err(e) => method_at(bytes@, pos as int, pool@) matches Err(err) && err == e,
        },
{
    let (flags, at) = take_u16(bytes, pos)?;
    let (name_index, at) = take_u16(bytes, at)?;
    let (descriptor_index, at) = take_u16(bytes, at)?;
    let (attributes, next) = read_attributes(bytes, at, pool)?;
    let method = MethodInfo {
        access_flags: MethodAccessFlags::from_bits_truncate(flags),
        name_index,
        descriptor_index,
        attributes,
    };
    Ok((method, next))
}

/// Reads a count and that many methods.
fn read_methods(bytes: &[u8], pos: usize, pool: &ConstantPool) -> (r: Result<
    (Vec<MethodInfo>, usize),
    ReadError,
>)
    ensures
        match r {
            Ok((methods, next)) => methods_at(bytes@, pos as int, pool@) matches Ok((view, end))
                && view == methods@.map_values(|m: MethodInfo| m@) && end == next,
            Err(e) => methods_at(bytes@, pos as int, pool@) matches Err(err) && err == e,
        },
{
    let (count, start) = take_u16(bytes, pos)?;
    let mut methods: Vec<MethodInfo> = Vec::new();
    let mut at: usize = start;
    let mut i: u16 = 0;
    assert(methods@.map_values(|m: MethodInfo| m@) =~= Seq::<MethodInfoView>::empty());
    while i < count
        invariant
            i <= count,
            methods_at(bytes@, pos as int, pool@) == methods_from(
                bytes@,
                at as int,
                pool@,
                count - i,
                methods@.map_values(|m: MethodInfo| m@),
            ),
        decreases count - i,
    {
        let ghost before = methods@.map_values(|m: MethodInfo| m@);
        let (method, next) = read_method_info(bytes, at, pool)?;
        let ghost view = method@;
        methods.push(method);
        assert(methods@.map_values(|m: MethodInfo| m@) =~= before.push(view));
        at = next;
        i = i + 1;
    }
    Ok((methods, at))
}

/// Reads what follows the constant pool in a class file.
fn read_class_body(
    bytes: &[u8],
    pos: usize,
    minor_version: u16,
    major_version: u16,
    constant_pool: ConstantPool,
) -> (r: Result<(ClassFile, usize), ReadError>)
    ensures
        match r {
            Ok((class_file, next)) => class_body_at(
                bytes@,
                pos as int,
                minor_version,
                major_version,
                constant_pool@,
            ) matches Ok((view, end)) && view == class_file@ && end == next,
            Err(e) => class_body_at(
                bytes@,
                pos as int,
                minor_version,
                major_version,
                constant_pool@,
            ) matches Err(err) && err == e,
        },
{
    let (access_flags, at) = take_u16(bytes, pos)?;
    let (this_class, at) = take_u16(bytes, at)?;
    let (super_class, at) = take_u16(bytes, at)?;
    let (interfaces, at) = read_counted_u16s(bytes, at)?;
    let (fields, at) = read_fields(bytes, at, &constant_pool)?;
    let (methods, at) = read_methods(bytes, at, &constant_pool)?;
    let (attributes, end) = read_attributes(bytes, at, &constant_pool)?;
    Ok(
        (
            ClassFile {
                minor_version,
                major_version,
                constant_pool,
                access_flags: ClassAccessFlags::from_bits_truncate(access_flags),
                this_class,
                super_class,
                interfaces,
                fields,
                methods,
                attributes,
            },
            end,
        ),
    )
}

/// A reader of class files over a run of bytes.
pub struct ClassReader<'a> {
    bytes: &'a [u8],
    position: usize,
}

impl<'a> ClassReader<'a> {
    /// The bytes that the reader reads from.
    pub closed spec fn input(&self) -> Seq<u8> {
        self.bytes@
    }

    /// The place of the next byte that the reader will read.
    pub closed spec fn position(&self) -> int {
        self.position as int
    }

    /// A reader that stands at the start of `bytes`.
    pub fn new(bytes: &'a [u8]) -> (r: ClassReader<'a>)
        ensures
            r.input() == bytes@,
            r.position() == 0,
    {
        ClassReader { bytes, position: 0 }
    }

    /// Reads the class file that starts where the reader stands.
    ///
    /// On success the result holds what [`class_file_at`] describes, and the
    /// reader stands after the class file. On failure the error is that of
    /// the first record that could not be read, and the reader has not moved.
    pub fn read_class_file(&mut self) -> (r: Result<ClassFile, ReadError>)
        ensures
            final(self).input() == old(self).input(),
            match r {
                Ok(class_file) => class_file_at(old(self).input(), old(self).position())
                    matches Ok((view, end)) && view == class_file@ && final(self).position()
                    == end,
                Err(e) => class_file_at(old(self).input(), old(self).position()) matches Err(err)
                    && err == e && final(self).position() == old(self).position(),
            },
    {
        let bytes = self.bytes;
        let (magic, at) = take_u32(bytes, self.position)?;
        if magic != MAGIC {
            return Err(ReadError::BadMagic(magic));
        }
        let (minor_version, at) = take_u16(bytes, at)?;
        let (major_version, at) = take_u16(bytes, at)?;
        let (constant_pool, at) = read_constant_pool(bytes, at)?;
        let (class_file, end) = read_class_body(
            bytes,
            at,
            minor_version,
            major_version,
            constant_pool,
        )?;
        self.position = end;
        Ok(class_file)
    }
}

} // verus!
