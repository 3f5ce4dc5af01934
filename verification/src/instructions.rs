//! The normalised instruction set that method bodies are decoded into.
//!
//! Roughly two hundred opcodes collapse into a few dozen instruction forms,
//! each carrying its operands as typed fields. Branch operands are counted in
//! instructions, relative to the branching instruction.

use vstd::prelude::*;

verus! {

/// One decoded instruction.
#[allow(non_camel_case_types)]
#[allow(inconsistent_fields)]
#[derive(Clone, Copy, Debug, PartialEq, Eq, Structural)]
pub enum Instruction {
    // Constants
    nop,
    aconst_null,
    const_ { data_type: NumberType, value: i8 },
    bipush { value: i8 },
    sipush { value: i16 },
    ldc { index: u16 },
    ldc2 { index: u16 },
    // Loads
    load { data_type: LoadStoreType, index: u8 },
    arrayload { data_type: ArrayLoadStoreType },
    // Stores
    store { data_type: LoadStoreType, index: u8 },
    arraystore { data_type: ArrayLoadStoreType },
    // Stack
    pop,
    pop2,
    dup,
    dup_x1,
    dup_x2,
    dup2,
    dup2_x1,
    dup2_x2,
    swap,
    // Math
    add { data_type: NumberType },
    sub { data_type: NumberType },
    mul { data_type: NumberType },
    div { data_type: NumberType },
    rem { data_type: NumberType },
    neg { data_type: NumberType },
    shl { data_type: IntegerType },
    shr { data_type: IntegerType },
    ushr { data_type: IntegerType },
    and { data_type: IntegerType },
    or { data_type: IntegerType },
    xor { data_type: IntegerType },
    inc { index: u8, value: i8 },
    // Conversions
    i2l,
    i2f,
    i2d,
    l2i,
    l2f,
    l2d,
    f2i,
    f2l,
    f2d,
    d2i,
    d2l,
    d2f,
    i2b,
    i2c,
    i2s,
    // Comparisons
    lcmp,
    fcmp { condition: OrdCondition },
    dcmp { condition: OrdCondition },
    if_ { condition: Condition, branch: i16 },
    if_icmp { condition: Condition, branch: i16 },
    if_acmp { condition: EqCondition, branch: i16 },
    // References
    getstatic { index: u16 },
    putstatic { index: u16 },
    getfield { index: u16 },
    putfield { index: u16 },
    invoke { kind: InvokeKind, index: u16 },
    new { index: u16 },
    newarray { atype: ArrayType },
    anewarray { index: u16 },
    arraylength,
    athrow,
    checkcast { index: u16 },
    instanceof { index: u16 },
    monitorenter,
    monitorexit,
    // Control
    goto { branch: i32 },
    jsr { branch: i32 },
    ret { index: u8 },
    tableswitch,
    lookupswitch,
    return_ { data_type: ReturnType },
    // Extended
    multianewarray { index: u16, dimensions: u8 },
    ifnull { branch: i16 },
    ifnonnull { branch: i16 },
    // Reserved
    breakpoint,
    impdep1,
    impdep2,
}

#[derive(Clone, Copy, Debug, PartialEq, Eq, Structural)]
pub enum NumberType {
    Int,
    Long,
    Float,
    Double,
}

#[derive(Clone, Copy, Debug, PartialEq, Eq, Structural)]
pub enum IntegerType {
    Int,
    Long,
}

#[derive(Clone, Copy, Debug, PartialEq, Eq, Structural)]
pub enum LoadStoreType {
    Int,
    Long,
    Float,
    Double,
    Reference,
}

#[derive(Clone, Copy, Debug, PartialEq, Eq, Structural)]
pub enum ArrayLoadStoreType {
    Int,
    Long,
    Float,
    Double,
    Reference,
    Byte,
    Char,
    Short,
}

#[derive(Clone, Copy, Debug, PartialEq, Eq, Structural)]
pub enum Condition {
    Eq,
    Ne,
    Lt,
    Le,
    Gt,
    Ge,
}

#[derive(Clone, Copy, Debug, PartialEq, Eq, Structural)]
pub enum EqCondition {
    Eq,
    Ne,
}

#[derive(Clone, Copy, Debug, PartialEq, Eq, Structural)]
pub enum OrdCondition {
    Lt,
    Gt,
}

#[derive(Clone, Copy, Debug, PartialEq, Eq, Structural)]
pub enum IfCmpType {
    Int,
    Reference,
}

/// How a method is invoked. `Interface` carries the argument count byte of the
/// instruction, which is never zero in a decoded instruction.
#[derive(Clone, Copy, Debug, PartialEq, Eq, Structural)]
pub enum InvokeKind {
    Virtual,
    Special,
    Static,
    Interface { count: u8 },
    Dynamic,
}

#[derive(Clone, Copy, Debug, PartialEq, Eq, Structural)]
pub enum ReturnType {
    Void,
    Int,
    Long,
    Float,
    Double,
    Reference,
}

/// Element type of a primitive array, as `newarray` encodes it.
#[derive(Clone, Copy, Debug, PartialEq, Eq, Structural)]
pub enum ArrayType {
    Boolean,
    Char,
    Float,
    Double,
    Byte,
    Short,
    Int,
    Long,
}

impl ArrayType {
    /// The tag byte that stands for this element type in bytecode.
    pub open spec fn tag(self) -> u8 {
        match self {
            ArrayType::Boolean => 4,
            ArrayType::Char => 5,
            ArrayType::Float => 6,
            ArrayType::Double => 7,
            ArrayType::Byte => 8,
            ArrayType::Short => 9,
            ArrayType::Int => 10,
            ArrayType::Long => 11,
        }
    }

    /// The element type with this tag, where there is one.
    pub open spec fn of_tag(tag: u8) -> Option<ArrayType> {
        match tag {
            4 => Some(ArrayType::Boolean),
            5 => Some(ArrayType::Char),
            6 => Some(ArrayType::Float),
            7 => Some(ArrayType::Double),
            8 => Some(ArrayType::Byte),
            9 => Some(ArrayType::Short),
            10 => Some(ArrayType::Int),
            11 => Some(ArrayType::Long),
            _ => None,
        }
    }

    /// Reads an element type from its tag byte; tags outside 4..=11 name none.
    pub fn from_repr(tag: u8) -> (r: Option<ArrayType>)
        ensures
            r == ArrayType::of_tag(tag),
            r matches Some(t) ==> t.tag() == tag,
            r is None <==> !(4 <= tag <= 11),
    {
        match tag {
            4 => Some(ArrayType::Boolean),
            5 => Some(ArrayType::Char),
            6 => Some(ArrayType::Float),
            7 => Some(ArrayType::Double),
            8 => Some(ArrayType::Byte),
            9 => Some(ArrayType::Short),
            10 => Some(ArrayType::Int),
            11 => Some(ArrayType::Long),
            _ => None,
        }
    }

    /// The tag byte of this element type.
    pub fn repr(self) -> (r: u8)
        ensures
            r == self.tag(),
            ArrayType::of_tag(r) == Some(self),
    {
        match self {
            ArrayType::Boolean => 4,
            ArrayType::Char => 5,
            ArrayType::Float => 6,
            ArrayType::Double => 7,
            ArrayType::Byte => 8,
            ArrayType::Short => 9,
            ArrayType::Int => 10,
            ArrayType::Long => 11,
        }
    }
}

impl Instruction {
    pub fn iconst(value: i8) -> (r: Instruction)
        ensures
            r == (Instruction::const_ { data_type: NumberType::Int, value }),
    {
        Instruction::const_ { data_type: NumberType::Int, value }
    }

    pub fn lconst(value: i8) -> (r: Instruction)
        ensures
            r == (Instruction::const_ { data_type: NumberType::Long, value }),
    {
        Instruction::const_ { data_type: NumberType::Long, value }
    }

    pub fn fconst(value: i8) -> (r: Instruction)
        ensures
            r == (Instruction::const_ { data_type: NumberType::Float, value }),
    {
        Instruction::const_ { data_type: NumberType::Float, value }
    }

    pub fn dconst(value: i8) -> (r: Instruction)
        ensures
            r == (Instruction::const_ { data_type: NumberType::Double, value }),
    {
        Instruction::const_ { data_type: NumberType::Double, value }
    }

    pub fn bipush(value: i8) -> (r: Instruction)
        ensures
            r == (Instruction::bipush { value }),
    {
        Instruction::bipush { value }
    }

    pub fn sipush(value: i16) -> (r: Instruction)
        ensures
            r == (Instruction::sipush { value }),
    {
        Instruction::sipush { value }
    }

    pub fn ldc(index: u16) -> (r: Instruction)
        ensures
            r == (Instruction::ldc { index }),
    {
        Instruction::ldc { index }
    }

    pub fn ldc2(index: u16) -> (r: Instruction)
        ensures
            r == (Instruction::ldc2 { index }),
    {
        Instruction::ldc2 { index }
    }

    pub fn iload(index: u8) -> (r: Instruction)
        ensures
            r == (Instruction::load { data_type: LoadStoreType::Int, index }),
    {
        Instruction::load { data_type: LoadStoreType::Int, index }
    }

    pub fn lload(index: u8) -> (r: Instruction)
        ensures
            r == (Instruction::load { data_type: LoadStoreType::Long, index }),
    {
        Instruction::load { data_type: LoadStoreType::Long, index }
    }

    pub fn fload(index: u8) -> (r: Instruction)
        ensures
            r == (Instruction::load { data_type: LoadStoreType::Float, index }),
    {
        Instruction::load { data_type: LoadStoreType::Float, index }
    }

    pub fn dload(index: u8) -> (r: Instruction)
        ensures
            r == (Instruction::load { data_type: LoadStoreType::Double, index }),
    {
        Instruction::load { data_type: LoadStoreType::Double, index }
    }

    pub fn aload(index: u8) -> (r: Instruction)
        ensures
            r == (Instruction::load { data_type: LoadStoreType::Reference, index }),
    {
        Instruction::load { data_type: LoadStoreType::Reference, index }
    }

    pub fn arrayload(data_type: ArrayLoadStoreType) -> (r: Instruction)
        ensures
            r == (Instruction::arrayload { data_type }),
    {
        Instruction::arrayload { data_type }
    }

    pub fn istore(index: u8) -> (r: Instruction)
        ensures
            r == (Instruction::store { data_type: LoadStoreType::Int, index }),
    {
        Instruction::store { data_type: LoadStoreType::Int, index }
    }

    pub fn lstore(index: u8) -> (r: Instruction)
        ensures
            r == (Instruction::store { data_type: LoadStoreType::Long, index }),
    {
        Instruction::store { data_type: LoadStoreType::Long, index }
    }

    pub fn fstore(index: u8) -> (r: Instruction)
        ensures
            r == (Instruction::store { data_type: LoadStoreType::Float, index }),
    {
        Instruction::store { data_type: LoadStoreType::Float, index }
    }

    pub fn dstore(index: u8) -> (r: Instruction)
        ensures
            r == (Instruction::store { data_type: LoadStoreType::Double, index }),
    {
        Instruction::store { data_type: LoadStoreType::Double, index }
    }

    pub fn astore(index: u8) -> (r: Instruction)
        ensures
            r == (Instruction::store { data_type: LoadStoreType::Reference, index }),
    {
        Instruction::store { data_type: LoadStoreType::Reference, index }
    }

    pub fn arraystore(data_type: ArrayLoadStoreType) -> (r: Instruction)
        ensures
            r == (Instruction::arraystore { data_type }),
    {
        Instruction::arraystore { data_type }
    }

    pub fn add(data_type: NumberType) -> (r: Instruction)
        ensures
            r == (Instruction::add { data_type }),
    {
        Instruction::add { data_type }
    }

    pub fn sub(data_type: NumberType) -> (r: Instruction)
        ensures
            r == (Instruction::sub { data_type }),
    {
        Instruction::sub { data_type }
    }

    pub fn mul(data_type: NumberType) -> (r: Instruction)
        ensures
            r == (Instruction::mul { data_type }),
    {
        Instruction::mul { data_type }
    }

    pub fn div(data_type: NumberType) -> (r: Instruction)
        ensures
            r == (Instruction::div { data_type }),
    {
        Instruction::div { data_type }
    }

    pub fn rem(data_type: NumberType) -> (r: Instruction)
        ensures
            r == (Instruction::rem { data_type }),
    {
        Instruction::rem { data_type }
    }

    pub fn neg(data_type: NumberType) -> (r: Instruction)
        ensures
            r == (Instruction::neg { data_type }),
    {
        Instruction::neg { data_type }
    }

    pub fn shl(data_type: IntegerType) -> (r: Instruction)
        ensures
            r == (Instruction::shl { data_type }),
    {
        Instruction::shl { data_type }
    }

    pub fn shr(data_type: IntegerType) -> (r: Instruction)
        ensures
            r == (Instruction::shr { data_type }),
    {
        Instruction::shr { data_type }
    }

    pub fn ushr(data_type: IntegerType) -> (r: Instruction)
        ensures
            r == (Instruction::ushr { data_type }),
    {
        Instruction::ushr { data_type }
    }

    pub fn and(data_type: IntegerType) -> (r: Instruction)
        ensures
            r == (Instruction::and { data_type }),
    {
        Instruction::and { data_type }
    }

    pub fn or(data_type: IntegerType) -> (r: Instruction)
        ensures
            r == (Instruction::or { data_type }),
    {
        Instruction::or { data_type }
    }

    pub fn xor(data_type: IntegerType) -> (r: Instruction)
        ensures
            r == (Instruction::xor { data_type }),
    {
        Instruction::xor { data_type }
    }

    pub fn inc(index: u8, value: i8) -> (r: Instruction)
        ensures
            r == (Instruction::inc { index, value }),
    {
        Instruction::inc { index, value }
    }

    pub fn fcmp(condition: OrdCondition) -> (r: Instruction)
        ensures
            r == (Instruction::fcmp { condition }),
    {
        Instruction::fcmp { condition }
    }

    pub fn dcmp(condition: OrdCondition) -> (r: Instruction)
        ensures
            r == (Instruction::dcmp { condition }),
    {
        Instruction::dcmp { condition }
    }

    pub fn if_(condition: Condition, branch: i16) -> (r: Instruction)
        ensures
            r == (Instruction::if_ { condition, branch }),
    {
        Instruction::if_ { condition, branch }
    }

    pub fn if_icmp(condition: Condition, branch: i16) -> (r: Instruction)
        ensures
            r == (Instruction::if_icmp { condition, branch }),
    {
        Instruction::if_icmp { condition, branch }
    }

    pub fn if_acmp(condition: EqCondition, branch: i16) -> (r: Instruction)
        ensures
            r == (Instruction::if_acmp { condition, branch }),
    {
        Instruction::if_acmp { condition, branch }
    }

    pub fn goto(branch: i32) -> (r: Instruction)
        ensures
            r == (Instruction::goto { branch }),
    {
        Instruction::goto { branch }
    }

    pub fn jsr(branch: i32) -> (r: Instruction)
        ensures
            r == (Instruction::jsr { branch }),
    {
        Instruction::jsr { branch }
    }

    pub fn ret(index: u8) -> (r: Instruction)
        ensures
            r == (Instruction::ret { index }),
    {
        Instruction::ret { index }
    }

    pub fn return_(data_type: ReturnType) -> (r: Instruction)
        ensures
            r == (Instruction::return_ { data_type }),
    {
        Instruction::return_ { data_type }
    }

    pub fn multianewarray(index: u16, dimensions: u8) -> (r: Instruction)
        ensures
            r == (Instruction::multianewarray { index, dimensions }),
    {
        Instruction::multianewarray { index, dimensions }
    }

    pub fn getfield(index: u16) -> (r: Instruction)
        ensures
            r == (Instruction::getfield { index }),
    {
        Instruction::getfield { index }
    }

    pub fn putfield(index: u16) -> (r: Instruction)
        ensures
            r == (Instruction::putfield { index }),
    {
        Instruction::putfield { index }
    }

    pub fn getstatic(index: u16) -> (r: Instruction)
        ensures
            r == (Instruction::getstatic { index }),
    {
        Instruction::getstatic { index }
    }

    pub fn putstatic(index: u16) -> (r: Instruction)
        ensures
            r == (Instruction::putstatic { index }),
    {
        Instruction::putstatic { index }
    }

    pub fn invoke(kind: InvokeKind, index: u16) -> (r: Instruction)
        ensures
            r == (Instruction::invoke { kind, index }),
    {
        Instruction::invoke { kind, index }
    }

    pub fn new(index: u16) -> (r: Instruction)
        ensures
            r == (Instruction::new { index }),
    {
        Instruction::new { index }
    }

    pub fn newarray(atype: ArrayType) -> (r: Instruction)
        ensures
            r == (Instruction::newarray { atype }),
    {
        Instruction::newarray { atype }
    }

    pub fn anewarray(index: u16) -> (r: Instruction)
        ensures
            r == (Instruction::anewarray { index }),
    {
        Instruction::anewarray { index }
    }

    pub fn checkcast(index: u16) -> (r: Instruction)
        ensures
            r == (Instruction::checkcast { index }),
    {
        Instruction::checkcast { index }
    }

    pub fn instanceof(index: u16) -> (r: Instruction)
        ensures
            r == (Instruction::instanceof { index }),
    {
        Instruction::instanceof { index }
    }

    pub fn ifnull(branch: i16) -> (r: Instruction)
        ensures
            r == (Instruction::ifnull { branch }),
    {
        Instruction::ifnull { branch }
    }

    pub fn ifnonnull(branch: i16) -> (r: Instruction)
        ensures
            r == (Instruction::ifnonnull { branch }),
    {
        Instruction::ifnonnull { branch }
    }
}

} // verus!
