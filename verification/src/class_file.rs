//! The parsed form of a class file.
//!
//! These types hold what the binary reader found, index for index: nothing is
//! resolved here. Names and descriptors are indices into the constant pool,
//! and the code of a method is the bytes as they stood in the file.

pub mod constant_pool;

use self::constant_pool::{ConstantInfoView, ConstantPool};
use vstd::prelude::*;

verus! {

#[derive(Debug)]
pub struct ClassFile {
    pub minor_version: u16,
    pub major_version: u16,
    pub constant_pool: ConstantPool,
    pub access_flags: ClassAccessFlags,
    pub this_class: u16,
    /// Zero for the one class that has no super class.
    pub super_class: u16,
    pub interfaces: Vec<u16>,
    pub fields: Vec<FieldInfo>,
    pub methods: Vec<MethodInfo>,
    pub attributes: Vec<AttributeInfo>,
}

/// Access flags of a class.
#[derive(Clone, Copy, Debug, PartialEq, Eq, Structural)]
pub struct ClassAccessFlags {
    pub bits: u16,
}

impl ClassAccessFlags {
    pub const PUBLIC: u16 = 0x0001;

    pub const FINAL: u16 = 0x0010;

    pub const SUPER: u16 = 0x0020;

    pub const INTERFACE: u16 = 0x0200;

    pub const ABSTRACT: u16 = 0x0400;

    pub const SYNTHETIC: u16 = 0x1000;

    pub const ANNOTATION: u16 = 0x2000;

    pub const ENUM: u16 = 0x4000;

    pub const MODULE: u16 = 0x8000;

    /// Every flag that is defined.
    pub const ALL: u16 = 0xf631;

    /// Whether every flag of `mask` is set.
    pub open spec fn has(self, mask: u16) -> bool {
        self.bits & mask == mask
    }

    /// The flags of `bits` that are defined; the other bits are dropped.
    pub open spec fn truncated(bits: u16) -> Self {
        Self { bits: bits & Self::ALL }
    }

    /// The flags of `bits` that are defined; the other bits are dropped.
    pub fn from_bits_truncate(bits: u16) -> (r: Self)
        ensures
            r == Self::truncated(bits),
    {
        ClassAccessFlags { bits: bits & Self::ALL }
    }

    /// The flags as a bit set.
    pub fn bits(&self) -> (r: u16)
        ensures
            r == self.bits,
    {
        self.bits
    }

    /// Whether every flag of `mask` is set.
    pub fn contains(&self, mask: u16) -> (r: bool)
        ensures
            r == self.has(mask),
    {
        self.bits & mask == mask
    }
}

#[derive(Debug)]
pub struct FieldInfo {
    pub access_flags: FieldAccessFlags,
    pub name_index: u16,
    pub descriptor_index: u16,
    pub attributes: Vec<AttributeInfo>,
}

/// Access flags of a field.
#[derive(Clone, Copy, Debug, PartialEq, Eq, Structural)]
pub struct FieldAccessFlags {
    pub bits: u16,
}

impl FieldAccessFlags {
    pub const PUBLIC: u16 = 0x0001;

    pub const PRIVATE: u16 = 0x0002;

    pub const PROTECTED: u16 = 0x0004;

    pub const STATIC: u16 = 0x0008;

    pub const FINAL: u16 = 0x0010;

    pub const VOLATILE: u16 = 0x0040;

    pub const TRANSIENT: u16 = 0x0080;

    pub const SYNTHETIC: u16 = 0x1000;

    pub const ENUM: u16 = 0x4000;

    /// Every flag that is defined.
    pub const ALL: u16 = 0x50df;

    /// Whether every flag of `mask` is set.
    pub open spec fn has(self, mask: u16) -> bool {
        self.bits & mask == mask
    }

    /// The flags of `bits` that are defined; the other bits are dropped.
    pub open spec fn truncated(bits: u16) -> Self {
        Self { bits: bits & Self::ALL }
    }

    /// The flags of `bits` that are defined; the other bits are dropped.
    pub fn from_bits_truncate(bits: u16) -> (r: Self)
        ensures
            r == Self::truncated(bits),
    {
        FieldAccessFlags { bits: bits & Self::ALL }
    }

    /// The flags as a bit set.
    pub fn bits(&self) -> (r: u16)
        ensures
            r == self.bits,
    {
        self.bits
    }

    /// Whether every flag of `mask` is set.
    pub fn contains(&self, mask: u16) -> (r: bool)
        ensures
            r == self.has(mask),
    {
        self.bits & mask == mask
    }
}

#[derive(Debug)]
pub struct MethodInfo {
    pub access_flags: MethodAccessFlags,
    pub name_index: u16,
    pub descriptor_index: u16,
    pub attributes: Vec<AttributeInfo>,
}

/// Access flags of a method.
#[derive(Clone, Copy, Debug, PartialEq, Eq, Structural)]
pub struct MethodAccessFlags {
    pub bits: u16,
}

impl MethodAccessFlags {
    pub const PUBLIC: u16 = 0x0001;

    pub const PRIVATE: u16 = 0x0002;

    pub const PROTECTED: u16 = 0x0004;

    pub const STATIC: u16 = 0x0008;

    pub const FINAL: u16 = 0x0010;

    pub const SYNCHRONIZED: u16 = 0x0020;

    pub const BRIDGE: u16 = 0x0040;

    pub const VARARGS: u16 = 0x0080;

    pub const NATIVE: u16 = 0x0100;

    pub const ABSTRACT: u16 = 0x0400;

    pub const STRICT: u16 = 0x0800;

    pub const SYNTHETIC: u16 = 0x1000;

    /// Every flag that is defined.
    pub const ALL: u16 = 0x1dff;

    /// Whether every flag of `mask` is set.
    pub open spec fn has(self, mask: u16) -> bool {
        self.bits & mask == mask
    }

    /// The flags of `bits` that are defined; the other bits are dropped.
    pub open spec fn truncated(bits: u16) -> Self {
        Self { bits: bits & Self::ALL }
    }

    /// The flags of `bits` that are defined; the other bits are dropped.
    pub fn from_bits_truncate(bits: u16) -> (r: Self)
        ensures
            r == Self::truncated(bits),
    {
        MethodAccessFlags { bits: bits & Self::ALL }
    }

    /// The flags as a bit set.
    pub fn bits(&self) -> (r: u16)
        ensures
            r == self.bits,
    {
        self.bits
    }

    /// Whether every flag of `mask` is set.
    pub fn contains(&self, mask: u16) -> (r: bool)
        ensures
            r == self.has(mask),
    {
        self.bits & mask == mask
    }
}

#[derive(Debug)]
pub enum AttributeInfo {
    Code(CodeAttribute),
    LineNumberTable(LineNumberTableAttribute),
    BootstrapMethods(BootstrapMethodsAttribute),
    InnerClasses(InnerClassesAttribute),
    SourceFile(SourceFileAttribute),
    /// An attribute of a name that the reader does not know, kept as it
    /// stood in the file.
    Custom(CustomAttribute),
}

#[derive(Debug)]
pub struct CodeAttribute {
    pub max_stack: u16,
    pub max_locals: u16,
    pub code: Vec<u8>,
    pub exception_table: Vec<ExceptionTableEntry>,
    pub attributes: Vec<AttributeInfo>,
}

#[derive(Clone, Copy, Debug, PartialEq, Eq, Structural)]
pub struct ExceptionTableEntry {
    pub start_pc: u16,
    pub end_pc: u16,
    pub handler_pc: u16,
    pub catch_type: u16,
}

#[derive(Debug)]
pub struct LineNumberTableAttribute {
    pub line_number_table: Vec<LineNumberTableEntry>,
}

#[derive(Clone, Copy, Debug, PartialEq, Eq, Structural)]
pub struct LineNumberTableEntry {
    pub start_pc: u16,
    pub line_number: u16,
}

#[derive(Debug)]
pub struct BootstrapMethodsAttribute {
    pub bootstrap_methods: Vec<BootstrapMethod>,
}

#[derive(Debug)]
pub struct BootstrapMethod {
    pub bootstrap_method_ref: u16,
    pub bootstrap_arguments: Vec<u16>,
}

#[derive(Debug)]
pub struct InnerClassesAttribute {
    pub classes: Vec<InnerClass>,
}

#[derive(Clone, Copy, Debug, PartialEq, Eq, Structural)]
pub struct InnerClass {
    pub inner_class_info_index: u16,
    pub outer_class_info_index: u16,
    pub inner_name_index: u16,
    pub inner_class_access_flags: InnerClassAccessFlags,
}

/// Access flags of an inner class.
#[derive(Clone, Copy, Debug, PartialEq, Eq, Structural)]
pub struct InnerClassAccessFlags {
    pub bits: u16,
}

impl InnerClassAccessFlags {
    pub const PUBLIC: u16 = 0x0001;

    pub const PRIVATE: u16 = 0x0002;

    pub const PROTECTED: u16 = 0x0004;

    pub const STATIC: u16 = 0x0008;

    pub const FINAL: u16 = 0x0010;

    pub const INTERFACE: u16 = 0x0200;

    pub const ABSTRACT: u16 = 0x0400;

    pub const SYNTHETIC: u16 = 0x1000;

    pub const ANNOTATION: u16 = 0x2000;

    pub const ENUM: u16 = 0x4000;

    /// Every flag that is defined.
    pub const ALL: u16 = 0x761f;

    /// Whether every flag of `mask` is set.
    pub open spec fn has(self, mask: u16) -> bool {
        self.bits & mask == mask
    }

    /// The flags of `bits` that are defined; the other bits are dropped.
    pub open spec fn truncated(bits: u16) -> Self {
        Self { bits: bits & Self::ALL }
    }

    /// The flags of `bits` that are defined; the other bits are dropped.
    pub fn from_bits_truncate(bits: u16) -> (r: Self)
        ensures
            r == Self::truncated(bits),
    {
        InnerClassAccessFlags { bits: bits & Self::ALL }
    }

    /// The flags as a bit set.
    pub fn bits(&self) -> (r: u16)
        ensures
            r == self.bits,
    {
        self.bits
    }

    /// Whether every flag of `mask` is set.
    pub fn contains(&self, mask: u16) -> (r: bool)
        ensures
            r == self.has(mask),
    {
        self.bits & mask == mask
    }
}

#[derive(Clone, Copy, Debug, PartialEq, Eq, Structural)]
pub struct SourceFileAttribute {
    pub sourcefile_index: u16,
}

#[derive(Debug)]
pub struct CustomAttribute {
    pub attribute_name_index: u16,
    pub info: Vec<u8>,
}

/// [`BootstrapMethod`] as contracts see it.
pub struct BootstrapMethodView {
    pub bootstrap_method_ref: u16,
    pub bootstrap_arguments: Seq<u16>,
}

/// [`AttributeInfo`] as contracts see it.
pub enum AttributeInfoView {
    Code {
        max_stack: u16,
        max_locals: u16,
        code: Seq<u8>,
        exception_table: Seq<ExceptionTableEntry>,
        attributes: Seq<AttributeInfoView>,
    },
    LineNumberTable(Seq<LineNumberTableEntry>),
    BootstrapMethods(Seq<BootstrapMethodView>),
    InnerClasses(Seq<InnerClass>),
    SourceFile(SourceFileAttribute),
    Custom { attribute_name_index: u16, info: Seq<u8> },
}

/// [`FieldInfo`] as contracts see it.
pub struct FieldInfoView {
    pub access_flags: FieldAccessFlags,
    pub name_index: u16,
    pub descriptor_index: u16,
    pub attributes: Seq<AttributeInfoView>,
}

/// [`MethodInfo`] as contracts see it.
pub struct MethodInfoView {
    pub access_flags: MethodAccessFlags,
    pub name_index: u16,
    pub descriptor_index: u16,
    pub attributes: Seq<AttributeInfoView>,
}

/// [`ClassFile`] as contracts see it.
pub struct ClassFileView {
    pub minor_version: u16,
    pub major_version: u16,
    pub constant_pool: Seq<ConstantInfoView>,
    pub access_flags: ClassAccessFlags,
    pub this_class: u16,
    pub super_class: u16,
    pub interfaces: Seq<u16>,
    pub fields: Seq<FieldInfoView>,
    pub methods: Seq<MethodInfoView>,
    pub attributes: Seq<AttributeInfoView>,
}

impl View for BootstrapMethod {
    type V = BootstrapMethodView;

    open spec fn view(&self) -> BootstrapMethodView {
        BootstrapMethodView {
            bootstrap_method_ref: self.bootstrap_method_ref,
            bootstrap_arguments: self.bootstrap_arguments@,
        }
    }
}

/// What an attribute holds, nested attributes included.
pub open spec fn attribute_view(attribute: AttributeInfo) -> AttributeInfoView
    decreases attribute,
{
    match attribute {
        AttributeInfo::Code(code) => AttributeInfoView::Code {
            max_stack: code.max_stack,
            max_locals: code.max_locals,
            code: code.code@,
            exception_table: code.exception_table@,
            attributes: attributes_view(code.attributes@),
        },
        AttributeInfo::LineNumberTable(table) => AttributeInfoView::LineNumberTable(
            table.line_number_table@,
        ),
        AttributeInfo::BootstrapMethods(methods) => AttributeInfoView::BootstrapMethods(
            methods.bootstrap_methods@.map_values(|m: BootstrapMethod| m@),
        ),
        AttributeInfo::InnerClasses(classes) => AttributeInfoView::InnerClasses(classes.classes@),
        AttributeInfo::SourceFile(source) => AttributeInfoView::SourceFile(source),
        AttributeInfo::Custom(custom) => AttributeInfoView::Custom {
            attribute_name_index: custom.attribute_name_index,
            info: custom.info@,
        },
    }
}

/// What a row of attributes holds.
pub open spec fn attributes_view(attributes: Seq<AttributeInfo>) -> Seq<AttributeInfoView>
    decreases attributes,
{
    Seq::new(
        attributes.len(),
        |i: int|
            if 0 <= i < attributes.len() {
                attribute_view(attributes[i])
            } else {
                AttributeInfoView::SourceFile(SourceFileAttribute { sourcefile_index: 0 })
            },
    )
}

impl View for AttributeInfo {
    type V = AttributeInfoView;

    open spec fn view(&self) -> AttributeInfoView {
        attribute_view(*self)
    }
}

impl View for CodeAttribute {
    type V = AttributeInfoView;

    open spec fn view(&self) -> AttributeInfoView {
        AttributeInfoView::Code {
            max_stack: self.max_stack,
            max_locals: self.max_locals,
            code: self.code@,
            exception_table: self.exception_table@,
            attributes: attributes_view(self.attributes@),
        }
    }
}

impl View for FieldInfo {
    type V = FieldInfoView;

    open spec fn view(&self) -> FieldInfoView {
        FieldInfoView {
            access_flags: self.access_flags,
            name_index: self.name_index,
            descriptor_index: self.descriptor_index,
            attributes: attributes_view(self.attributes@),
        }
    }
}

impl View for MethodInfo {
    type V = MethodInfoView;

    open spec fn view(&self) -> MethodInfoView {
        MethodInfoView {
            access_flags: self.access_flags,
            name_index: self.name_index,
            descriptor_index: self.descriptor_index,
            attributes: attributes_view(self.attributes@),
        }
    }
}

impl View for ClassFile {
    type V = ClassFileView;

    open spec fn view(&self) -> ClassFileView {
        ClassFileView {
            minor_version: self.minor_version,
            major_version: self.major_version,
            constant_pool: self.constant_pool@,
            access_flags: self.access_flags,
            this_class: self.this_class,
            super_class: self.super_class,
            interfaces: self.interfaces@,
            fields: self.fields@.map_values(|f: FieldInfo| f@),
            methods: self.methods@.map_values(|m: MethodInfo| m@),
            attributes: attributes_view(self.attributes@),
        }
    }
}

/// The first `Code` attribute among `attributes`, if there is one.
pub open spec fn first_code(attributes: Seq<AttributeInfoView>) -> Option<AttributeInfoView>
    decreases attributes.len(),
{
    if attributes.len() == 0 {
        None
    } else if attributes[0] is Code {
        Some(attributes[0])
    } else {
        first_code(attributes.drop_first())
    }
}

impl AttributeInfo {
    /// The payload of a `Code` attribute.
    pub fn try_as_code_ref(&self) -> (r: Option<&CodeAttribute>)
        ensures
            match r {
                Some(code) => self@ == code@,
                None => !(self@ is Code),
            },
    {
        match self {
            AttributeInfo::Code(code) => Some(code),
            _ => None,
        }
    }
}

impl MethodInfo {
    /// The `Code` attribute of the method: the first one, should there be
    /// several. A method without one is abstract or native.
    pub fn code(&self) -> (r: Option<&CodeAttribute>)
        ensures
            match r {
                Some(code) => first_code(self@.attributes) == Some(code@),
                None => first_code(self@.attributes) is None,
            },
    {
        let mut i: usize = 0;
        assert(self@.attributes.skip(0) =~= self@.attributes);
        while i < self.attributes.len()
            invariant
                i <= self.attributes.len(),
                first_code(self@.attributes) == first_code(self@.attributes.skip(i as int)),
            decreases self.attributes.len() - i,
        {
            let ghost rest = self@.attributes.skip(i as int);
            proof {
                assert(rest[0] == self.attributes[i as int]@);
                assert(rest.drop_first() =~= self@.attributes.skip(i + 1));
            }
            if let Some(code) = self.attributes[i].try_as_code_ref() {
                return Some(code);
            }
            i = i + 1;
        }
        None
    }
}

} // verus!
