//! The opcode tables: which instruction each opcode byte stands for, grouped
//! by the operands that follow the opcode.
//!
//! Each table is stated once as a spec function and once as the executable
//! function proved equal to it.

use crate::instructions::{
    ArrayLoadStoreType, Condition, EqCondition, Instruction, IntegerType, InvokeKind,
    LoadStoreType, NumberType, OrdCondition, ReturnType,
};
use vstd::prelude::*;

verus! {

/// The instruction of an opcode that takes no operand.
pub open spec fn plain_instruction(op: u8) -> Option<Instruction> {
    match op {
        0x00 => Some(Instruction::nop),
        0x01 => Some(Instruction::aconst_null),
        0x02 => Some(Instruction::const_ { data_type: NumberType::Int, value: -1i8 }),
        0x03 => Some(Instruction::const_ { data_type: NumberType::Int, value: 0 }),
        0x04 => Some(Instruction::const_ { data_type: NumberType::Int, value: 1 }),
        0x05 => Some(Instruction::const_ { data_type: NumberType::Int, value: 2 }),
        0x06 => Some(Instruction::const_ { data_type: NumberType::Int, value: 3 }),
        0x07 => Some(Instruction::const_ { data_type: NumberType::Int, value: 4 }),
        0x08 => Some(Instruction::const_ { data_type: NumberType::Int, value: 5 }),
        0x09 => Some(Instruction::const_ { data_type: NumberType::Long, value: 0 }),
        0x0a => Some(Instruction::const_ { data_type: NumberType::Long, value: 1 }),
        0x0b => Some(Instruction::const_ { data_type: NumberType::Float, value: 0 }),
        0x0c => Some(Instruction::const_ { data_type: NumberType::Float, value: 1 }),
        0x0d => Some(Instruction::const_ { data_type: NumberType::Float, value: 2 }),
        0x0e => Some(Instruction::const_ { data_type: NumberType::Double, value: 0 }),
        0x0f => Some(Instruction::const_ { data_type: NumberType::Double, value: 1 }),
        0x1a => Some(Instruction::load { data_type: LoadStoreType::Int, index: 0 }),
        0x1b => Some(Instruction::load { data_type: LoadStoreType::Int, index: 1 }),
        0x1c => Some(Instruction::load { data_type: LoadStoreType::Int, index: 2 }),
        0x1d => Some(Instruction::load { data_type: LoadStoreType::Int, index: 3 }),
        0x1e => Some(Instruction::load { data_type: LoadStoreType::Long, index: 0 }),
        0x1f => Some(Instruction::load { data_type: LoadStoreType::Long, index: 1 }),
        0x20 => Some(Instruction::load { data_type: LoadStoreType::Long, index: 2 }),
        0x21 => Some(Instruction::load { data_type: LoadStoreType::Long, index: 3 }),
        0x22 => Some(Instruction::load { data_type: LoadStoreType::Float, index: 0 }),
        0x23 => Some(Instruction::load { data_type: LoadStoreType::Float, index: 1 }),
        0x24 => Some(Instruction::load { data_type: LoadStoreType::Float, index: 2 }),
        0x25 => Some(Instruction::load { data_type: LoadStoreType::Float, index: 3 }),
        0x26 => Some(Instruction::load { data_type: LoadStoreType::Double, index: 0 }),
        0x27 => Some(Instruction::load { data_type: LoadStoreType::Double, index: 1 }),
        0x28 => Some(Instruction::load { data_type: LoadStoreType::Double, index: 2 }),
        0x29 => Some(Instruction::load { data_type: LoadStoreType::Double, index: 3 }),
        0x2a => Some(Instruction::load { data_type: LoadStoreType::Reference, index: 0 }),
        0x2b => Some(Instruction::load { data_type: LoadStoreType::Reference, index: 1 }),
        0x2c => Some(Instruction::load { data_type: LoadStoreType::Reference, index: 2 }),
        0x2d => Some(Instruction::load { data_type: LoadStoreType::Reference, index: 3 }),
        0x2e => Some(Instruction::arrayload { data_type: ArrayLoadStoreType::Int }),
        0x2f => Some(Instruction::arrayload { data_type: ArrayLoadStoreType::Long }),
        0x30 => Some(Instruction::arrayload { data_type: ArrayLoadStoreType::Float }),
        0x31 => Some(Instruction::arrayload { data_type: ArrayLoadStoreType::Double }),
        0x32 => Some(Instruction::arrayload { data_type: ArrayLoadStoreType::Reference }),
        0x33 => Some(Instruction::arrayload { data_type: ArrayLoadStoreType::Byte }),
        0x34 => Some(Instruction::arrayload { data_type: ArrayLoadStoreType::Char }),
        0x35 => Some(Instruction::arrayload { data_type: ArrayLoadStoreType::Short }),
        0x3b => Some(Instruction::store { data_type: LoadStoreType::Int, index: 0 }),
        0x3c => Some(Instruction::store { data_type: LoadStoreType::Int, index: 1 }),
        0x3d => Some(Instruction::store { data_type: LoadStoreType::Int, index: 2 }),
        0x3e => Some(Instruction::store { data_type: LoadStoreType::Int, index: 3 }),
        0x3f => Some(Instruction::store { data_type: LoadStoreType::Long, index: 0 }),
        0x40 => Some(Instruction::store { data_type: LoadStoreType::Long, index: 1 }),
        0x41 => Some(Instruction::store { data_type: LoadStoreType::Long, index: 2 }),
        0x42 => Some(Instruction::store { data_type: LoadStoreType::Long, index: 3 }),
        0x43 => Some(Instruction::store { data_type: LoadStoreType::Float, index: 0 }),
        0x44 => Some(Instruction::store { data_type: LoadStoreType::Float, index: 1 }),
        0x45 => Some(Instruction::store { data_type: LoadStoreType::Float, index: 2 }),
        0x46 => Some(Instruction::store { data_type: LoadStoreType::Float, index: 3 }),
        0x47 => Some(Instruction::store { data_type: LoadStoreType::Double, index: 0 }),
        0x48 => Some(Instruction::store { data_type: LoadStoreType::Double, index: 1 }),
        0x49 => Some(Instruction::store { data_type: LoadStoreType::Double, index: 2 }),
        0x4a => Some(Instruction::store { data_type: LoadStoreType::Double, index: 3 }),
        0x4b => Some(Instruction::store { data_type: LoadStoreType::Reference, index: 0 }),
        0x4c => Some(Instruction::store { data_type: LoadStoreType::Reference, index: 1 }),
        0x4d => Some(Instruction::store { data_type: LoadStoreType::Reference, index: 2 }),
        0x4e => Some(Instruction::store { data_type: LoadStoreType::Reference, index: 3 }),
        0x4f => Some(Instruction::arraystore { data_type: ArrayLoadStoreType::Int }),
        0x50 => Some(Instruction::arraystore { data_type: ArrayLoadStoreType::Long }),
        0x51 => Some(Instruction::arraystore { data_type: ArrayLoadStoreType::Float }),
        0x52 => Some(Instruction::arraystore { data_type: ArrayLoadStoreType::Double }),
        0x53 => Some(Instruction::arraystore { data_type: ArrayLoadStoreType::Reference }),
        0x54 => Some(Instruction::arraystore { data_type: ArrayLoadStoreType::Byte }),
        0x55 => Some(Instruction::arraystore { data_type: ArrayLoadStoreType::Char }),
        0x56 => Some(Instruction::arraystore { data_type: ArrayLoadStoreType::Short }),
        0x57 => Some(Instruction::pop),
        0x58 => Some(Instruction::pop2),
        0x59 => Some(Instruction::dup),
        0x5a => Some(Instruction::dup_x1),
        0x5b => Some(Instruction::dup_x2),
        0x5c => Some(Instruction::dup2),
        0x5d => Some(Instruction::dup2_x1),
        0x5e => Some(Instruction::dup2_x2),
        0x5f => Some(Instruction::swap),
        0x60 => Some(Instruction::add { data_type: NumberType::Int }),
        0x61 => Some(Instruction::add { data_type: NumberType::Long }),
        0x62 => Some(Instruction::add { data_type: NumberType::Float }),
        0x63 => Some(Instruction::add { data_type: NumberType::Double }),
        0x64 => Some(Instruction::sub { data_type: NumberType::Int }),
        0x65 => Some(Instruction::sub { data_type: NumberType::Long }),
        0x66 => Some(Instruction::sub { data_type: NumberType::Float }),
        0x67 => Some(Instruction::sub { data_type: NumberType::Double }),
        0x68 => Some(Instruction::mul { data_type: NumberType::Int }),
        0x69 => Some(Instruction::mul { data_type: NumberType::Long }),
        0x6a => Some(Instruction::mul { data_type: NumberType::Float }),
        0x6b => Some(Instruction::mul { data_type: NumberType::Double }),
        0x6c => Some(Instruction::div { data_type: NumberType::Int }),
        0x6d => Some(Instruction::div { data_type: NumberType::Long }),
        0x6e => Some(Instruction::div { data_type: NumberType::Float }),
        0x6f => Some(Instruction::div { data_type: NumberType::Double }),
        0x70 => Some(Instruction::rem { data_type: NumberType::Int }),
        0x71 => Some(Instruction::rem { data_type: NumberType::Long }),
        0x72 => Some(Instruction::rem { data_type: NumberType::Float }),
        0x73 => Some(Instruction::rem { data_type: NumberType::Double }),
        0x74 => Some(Instruction::neg { data_type: NumberType::Int }),
        0x75 => Some(Instruction::neg { data_type: NumberType::Long }),
        0x76 => Some(Instruction::neg { data_type: NumberType::Float }),
        0x77 => Some(Instruction::neg { data_type: NumberType::Double }),
        0x78 => Some(Instruction::shl { data_type: IntegerType::Int }),
        0x79 => Some(Instruction::shl { data_type: IntegerType::Long }),
        0x7a => Some(Instruction::shr { data_type: IntegerType::Int }),
        0x7b => Some(Instruction::shr { data_type: IntegerType::Long }),
        0x7c => Some(Instruction::ushr { data_type: IntegerType::Int }),
        0x7d => Some(Instruction::ushr { data_type: IntegerType::Long }),
        0x7e => Some(Instruction::and { data_type: IntegerType::Int }),
        0x7f => Some(Instruction::and { data_type: IntegerType::Long }),
        0x80 => Some(Instruction::or { data_type: IntegerType::Int }),
        0x81 => Some(Instruction::or { data_type: IntegerType::Long }),
        0x82 => Some(Instruction::xor { data_type: IntegerType::Int }),
        0x83 => Some(Instruction::xor { data_type: IntegerType::Long }),
        0x85 => Some(Instruction::i2l),
        0x86 => Some(Instruction::i2f),
        0x87 => Some(Instruction::i2d),
        0x88 => Some(Instruction::l2i),
        0x89 => Some(Instruction::l2f),
        0x8a => Some(Instruction::l2d),
        0x8b => Some(Instruction::f2i),
        0x8c => Some(Instruction::f2l),
        0x8d => Some(Instruction::f2d),
        0x8e => Some(Instruction::d2i),
        0x8f => Some(Instruction::d2l),
        0x90 => Some(Instruction::d2f),
        0x91 => Some(Instruction::i2b),
        0x92 => Some(Instruction::i2c),
        0x93 => Some(Instruction::i2s),
        0x94 => Some(Instruction::lcmp),
        0x95 => Some(Instruction::fcmp { condition: OrdCondition::Lt }),
        0x96 => Some(Instruction::fcmp { condition: OrdCondition::Gt }),
        0x97 => Some(Instruction::dcmp { condition: OrdCondition::Lt }),
        0x98 => Some(Instruction::dcmp { condition: OrdCondition::Gt }),
        0xac => Some(Instruction::return_ { data_type: ReturnType::Int }),
        0xad => Some(Instruction::return_ { data_type: ReturnType::Long }),
        0xae => Some(Instruction::return_ { data_type: ReturnType::Float }),
        0xaf => Some(Instruction::return_ { data_type: ReturnType::Double }),
        0xb0 => Some(Instruction::return_ { data_type: ReturnType::Reference }),
        0xb1 => Some(Instruction::return_ { data_type: ReturnType::Void }),
        0xbe => Some(Instruction::arraylength),
        0xbf => Some(Instruction::athrow),
        0xc2 => Some(Instruction::monitorenter),
        0xc3 => Some(Instruction::monitorexit),
        _ => None,
    }
}

/// The instruction of an opcode that is followed by one byte naming a local.
pub open spec fn local_instruction(op: u8, index: u8) -> Option<Instruction> {
    match op {
        0x15 => Some(Instruction::load { data_type: LoadStoreType::Int, index }),
        0x16 => Some(Instruction::load { data_type: LoadStoreType::Long, index }),
        0x17 => Some(Instruction::load { data_type: LoadStoreType::Float, index }),
        0x18 => Some(Instruction::load { data_type: LoadStoreType::Double, index }),
        0x19 => Some(Instruction::load { data_type: LoadStoreType::Reference, index }),
        0x36 => Some(Instruction::store { data_type: LoadStoreType::Int, index }),
        0x37 => Some(Instruction::store { data_type: LoadStoreType::Long, index }),
        0x38 => Some(Instruction::store { data_type: LoadStoreType::Float, index }),
        0x39 => Some(Instruction::store { data_type: LoadStoreType::Double, index }),
        0x3a => Some(Instruction::store { data_type: LoadStoreType::Reference, index }),
        0xa9 => Some(Instruction::ret { index }),
        _ => None,
    }
}

/// The instruction of an opcode that is followed by a two-byte constant-pool
/// index.
pub open spec fn pool_instruction(op: u8, index: u16) -> Option<Instruction> {
    match op {
        0x13 => Some(Instruction::ldc { index }),
        0x14 => Some(Instruction::ldc2 { index }),
        0xb2 => Some(Instruction::getstatic { index }),
        0xb3 => Some(Instruction::putstatic { index }),
        0xb4 => Some(Instruction::getfield { index }),
        0xb5 => Some(Instruction::putfield { index }),
        0xb6 => Some(Instruction::invoke { kind: InvokeKind::Virtual, index }),
        0xb7 => Some(Instruction::invoke { kind: InvokeKind::Special, index }),
        0xb8 => Some(Instruction::invoke { kind: InvokeKind::Static, index }),
        0xbb => Some(Instruction::new { index }),
        0xbd => Some(Instruction::anewarray { index }),
        0xc0 => Some(Instruction::checkcast { index }),
        0xc1 => Some(Instruction::instanceof { index }),
        _ => None,
    }
}

/// The instruction of a conditional branch, which is followed by a two-byte
/// signed offset.
pub open spec fn branch_instruction(op: u8, branch: i16) -> Option<Instruction> {
    match op {
        0x99 => Some(Instruction::if_ { condition: Condition::Eq, branch }),
        0x9a => Some(Instruction::if_ { condition: Condition::Ne, branch }),
        0x9b => Some(Instruction::if_ { condition: Condition::Lt, branch }),
        0x9c => Some(Instruction::if_ { condition: Condition::Ge, branch }),
        0x9d => Some(Instruction::if_ { condition: Condition::Gt, branch }),
        0x9e => Some(Instruction::if_ { condition: Condition::Le, branch }),
        0x9f => Some(Instruction::if_icmp { condition: Condition::Eq, branch }),
        0xa0 => Some(Instruction::if_icmp { condition: Condition::Ne, branch }),
        0xa1 => Some(Instruction::if_icmp { condition: Condition::Lt, branch }),
        0xa2 => Some(Instruction::if_icmp { condition: Condition::Ge, branch }),
        0xa3 => Some(Instruction::if_icmp { condition: Condition::Gt, branch }),
        0xa4 => Some(Instruction::if_icmp { condition: Condition::Le, branch }),
        0xa5 => Some(Instruction::if_acmp { condition: EqCondition::Eq, branch }),
        0xa6 => Some(Instruction::if_acmp { condition: EqCondition::Ne, branch }),
        0xc6 => Some(Instruction::ifnull { branch }),
        0xc7 => Some(Instruction::ifnonnull { branch }),
        _ => None,
    }
}

/// The instruction of an unconditional jump: `goto` and `jsr` with a two-byte
/// offset, `goto_w` and `jsr_w` with a four-byte one. The caller has widened
/// the offset.
pub open spec fn jump_instruction(op: u8, branch: i32) -> Option<Instruction> {
    match op {
        0xa7 | 0xc8 => Some(Instruction::goto { branch }),
        0xa8 | 0xc9 => Some(Instruction::jsr { branch }),
        _ => None,
    }
}

/// Executable form of [`plain_instruction`].
pub fn decode_plain(op: u8) -> (r: Option<Instruction>)
    ensures
        r == plain_instruction(op),
{
    match op {
        0x00 => Some(Instruction::nop),
        0x01 => Some(Instruction::aconst_null),
        0x02 => Some(Instruction::const_ { data_type: NumberType::Int, value: -1i8 }),
        0x03 => Some(Instruction::const_ { data_type: NumberType::Int, value: 0 }),
        0x04 => Some(Instruction::const_ { data_type: NumberType::Int, value: 1 }),
        0x05 => Some(Instruction::const_ { data_type: NumberType::Int, value: 2 }),
        0x06 => Some(Instruction::const_ { data_type: NumberType::Int, value: 3 }),
        0x07 => Some(Instruction::const_ { data_type: NumberType::Int, value: 4 }),
        0x08 => Some(Instruction::const_ { data_type: NumberType::Int, value: 5 }),
        0x09 => Some(Instruction::const_ { data_type: NumberType::Long, value: 0 }),
        0x0a => Some(Instruction::const_ { data_type: NumberType::Long, value: 1 }),
        0x0b => Some(Instruction::const_ { data_type: NumberType::Float, value: 0 }),
        0x0c => Some(Instruction::const_ { data_type: NumberType::Float, value: 1 }),
        0x0d => Some(Instruction::const_ { data_type: NumberType::Float, value: 2 }),
        0x0e => Some(Instruction::const_ { data_type: NumberType::Double, value: 0 }),
        0x0f => Some(Instruction::const_ { data_type: NumberType::Double, value: 1 }),
        0x1a => Some(Instruction::load { data_type: LoadStoreType::Int, index: 0 }),
        0x1b => Some(Instruction::load { data_type: LoadStoreType::Int, index: 1 }),
        0x1c => Some(Instruction::load { data_type: LoadStoreType::Int, index: 2 }),
        0x1d => Some(Instruction::load { data_type: LoadStoreType::Int, index: 3 }),
        0x1e => Some(Instruction::load { data_type: LoadStoreType::Long, index: 0 }),
        0x1f => Some(Instruction::load { data_type: LoadStoreType::Long, index: 1 }),
        0x20 => Some(Instruction::load { data_type: LoadStoreType::Long, index: 2 }),
        0x21 => Some(Instruction::load { data_type: LoadStoreType::Long, index: 3 }),
        0x22 => Some(Instruction::load { data_type: LoadStoreType::Float, index: 0 }),
        0x23 => Some(Instruction::load { data_type: LoadStoreType::Float, index: 1 }),
        0x24 => Some(Instruction::load { data_type: LoadStoreType::Float, index: 2 }),
        0x25 => Some(Instruction::load { data_type: LoadStoreType::Float, index: 3 }),
        0x26 => Some(Instruction::load { data_type: LoadStoreType::Double, index: 0 }),
        0x27 => Some(Instruction::load { data_type: LoadStoreType::Double, index: 1 }),
        0x28 => Some(Instruction::load { data_type: LoadStoreType::Double, index: 2 }),
        0x29 => Some(Instruction::load { data_type: LoadStoreType::Double, index: 3 }),
        0x2a => Some(Instruction::load { data_type: LoadStoreType::Reference, index: 0 }),
        0x2b => Some(Instruction::load { data_type: LoadStoreType::Reference, index: 1 }),
        0x2c => Some(Instruction::load { data_type: LoadStoreType::Reference, index: 2 }),
        0x2d => Some(Instruction::load { data_type: LoadStoreType::Reference, index: 3 }),
        0x2e => Some(Instruction::arrayload { data_type: ArrayLoadStoreType::Int }),
        0x2f => Some(Instruction::arrayload { data_type: ArrayLoadStoreType::Long }),
        0x30 => Some(Instruction::arrayload { data_type: ArrayLoadStoreType::Float }),
        0x31 => Some(Instruction::arrayload { data_type: ArrayLoadStoreType::Double }),
        0x32 => Some(Instruction::arrayload { data_type: ArrayLoadStoreType::Reference }),
        0x33 => Some(Instruction::arrayload { data_type: ArrayLoadStoreType::Byte }),
        0x34 => Some(Instruction::arrayload { data_type: ArrayLoadStoreType::Char }),
        0x35 => Some(Instruction::arrayload { data_type: ArrayLoadStoreType::Short }),
        0x3b => Some(Instruction::store { data_type: LoadStoreType::Int, index: 0 }),
        0x3c => Some(Instruction::store { data_type: LoadStoreType::Int, index: 1 }),
        0x3d => Some(Instruction::store { data_type: LoadStoreType::Int, index: 2 }),
        0x3e => Some(Instruction::store { data_type: LoadStoreType::Int, index: 3 }),
        0x3f => Some(Instruction::store { data_type: LoadStoreType::Long, index: 0 }),
        0x40 => Some(Instruction::store { data_type: LoadStoreType::Long, index: 1 }),
        0x41 => Some(Instruction::store { data_type: LoadStoreType::Long, index: 2 }),
        0x42 => Some(Instruction::store { data_type: LoadStoreType::Long, index: 3 }),
        0x43 => Some(Instruction::store { data_type: LoadStoreType::Float, index: 0 }),
        0x44 => Some(Instruction::store { data_type: LoadStoreType::Float, index: 1 }),
        0x45 => Some(Instruction::store { data_type: LoadStoreType::Float, index: 2 }),
        0x46 => Some(Instruction::store { data_type: LoadStoreType::Float, index: 3 }),
        0x47 => Some(Instruction::store { data_type: LoadStoreType::Double, index: 0 }),
        0x48 => Some(Instruction::store { data_type: LoadStoreType::Double, index: 1 }),
        0x49 => Some(Instruction::store { data_type: LoadStoreType::Double, index: 2 }),
        0x4a => Some(Instruction::store { data_type: LoadStoreType::Double, index: 3 }),
        0x4b => Some(Instruction::store { data_type: LoadStoreType::Reference, index: 0 }),
        0x4c => Some(Instruction::store { data_type: LoadStoreType::Reference, index: 1 }),
        0x4d => Some(Instruction::store { data_type: LoadStoreType::Reference, index: 2 }),
        0x4e => Some(Instruction::store { data_type: LoadStoreType::Reference, index: 3 }),
        0x4f => Some(Instruction::arraystore { data_type: ArrayLoadStoreType::Int }),
        0x50 => Some(Instruction::arraystore { data_type: ArrayLoadStoreType::Long }),
        0x51 => Some(Instruction::arraystore { data_type: ArrayLoadStoreType::Float }),
        0x52 => Some(Instruction::arraystore { data_type: ArrayLoadStoreType::Double }),
        0x53 => Some(Instruction::arraystore { data_type: ArrayLoadStoreType::Reference }),
        0x54 => Some(Instruction::arraystore { data_type: ArrayLoadStoreType::Byte }),
        0x55 => Some(Instruction::arraystore { data_type: ArrayLoadStoreType::Char }),
        0x56 => Some(Instruction::arraystore { data_type: ArrayLoadStoreType::Short }),
        0x57 => Some(Instruction::pop),
        0x58 => Some(Instruction::pop2),
        0x59 => Some(Instruction::dup),
        0x5a => Some(Instruction::dup_x1),
        0x5b => Some(Instruction::dup_x2),
        0x5c => Some(Instruction::dup2),
        0x5d => Some(Instruction::dup2_x1),
        0x5e => Some(Instruction::dup2_x2),
        0x5f => Some(Instruction::swap),
        0x60 => Some(Instruction::add { data_type: NumberType::Int }),
        0x61 => Some(Instruction::add { data_type: NumberType::Long }),
        0x62 => Some(Instruction::add { data_type: NumberType::Float }),
        0x63 => Some(Instruction::add { data_type: NumberType::Double }),
        0x64 => Some(Instruction::sub { data_type: NumberType::Int }),
        0x65 => Some(Instruction::sub { data_type: NumberType::Long }),
        0x66 => Some(Instruction::sub { data_type: NumberType::Float }),
        0x67 => Some(Instruction::sub { data_type: NumberType::Double }),
        0x68 => Some(Instruction::mul { data_type: NumberType::Int }),
        0x69 => Some(Instruction::mul { data_type: NumberType::Long }),
        0x6a => Some(Instruction::mul { data_type: NumberType::Float }),
        0x6b => Some(Instruction::mul { data_type: NumberType::Double }),
        0x6c => Some(Instruction::div { data_type: NumberType::Int }),
        0x6d => Some(Instruction::div { data_type: NumberType::Long }),
        0x6e => Some(Instruction::div { data_type: NumberType::Float }),
        0x6f => Some(Instruction::div { data_type: NumberType::Double }),
        0x70 => Some(Instruction::rem { data_type: NumberType::Int }),
        0x71 => Some(Instruction::rem { data_type: NumberType::Long }),
        0x72 => Some(Instruction::rem { data_type: NumberType::Float }),
        0x73 => Some(Instruction::rem { data_type: NumberType::Double }),
        0x74 => Some(Instruction::neg { data_type: NumberType::Int }),
        0x75 => Some(Instruction::neg { data_type: NumberType::Long }),
        0x76 => Some(Instruction::neg { data_type: NumberType::Float }),
        0x77 => Some(Instruction::neg { data_type: NumberType::Double }),
        0x78 => Some(Instruction::shl { data_type: IntegerType::Int }),
        0x79 => Some(Instruction::shl { data_type: IntegerType::Long }),
        0x7a => Some(Instruction::shr { data_type: IntegerType::Int }),
        0x7b => Some(Instruction::shr { data_type: IntegerType::Long }),
        0x7c => Some(Instruction::ushr { data_type: IntegerType::Int }),
        0x7d => Some(Instruction::ushr { data_type: IntegerType::Long }),
        0x7e => Some(Instruction::and { data_type: IntegerType::Int }),
        0x7f => Some(Instruction::and { data_type: IntegerType::Long }),
        0x80 => Some(Instruction::or { data_type: IntegerType::Int }),
        0x81 => Some(Instruction::or { data_type: IntegerType::Long }),
        0x82 => Some(Instruction::xor { data_type: IntegerType::Int }),
        0x83 => Some(Instruction::xor { data_type: IntegerType::Long }),
        0x85 => Some(Instruction::i2l),
        0x86 => Some(Instruction::i2f),
        0x87 => Some(Instruction::i2d),
        0x88 => Some(Instruction::l2i),
        0x89 => Some(Instruction::l2f),
        0x8a => Some(Instruction::l2d),
        0x8b => Some(Instruction::f2i),
        0x8c => Some(Instruction::f2l),
        0x8d => Some(Instruction::f2d),
        0x8e => Some(Instruction::d2i),
        0x8f => Some(Instruction::d2l),
        0x90 => Some(Instruction::d2f),
        0x91 => Some(Instruction::i2b),
        0x92 => Some(Instruction::i2c),
        0x93 => Some(Instruction::i2s),
        0x94 => Some(Instruction::lcmp),
        0x95 => Some(Instruction::fcmp { condition: OrdCondition::Lt }),
        0x96 => Some(Instruction::fcmp { condition: OrdCondition::Gt }),
        0x97 => Some(Instruction::dcmp { condition: OrdCondition::Lt }),
        0x98 => Some(Instruction::dcmp { condition: OrdCondition::Gt }),
        0xac => Some(Instruction::return_ { data_type: ReturnType::Int }),
        0xad => Some(Instruction::return_ { data_type: ReturnType::Long }),
        0xae => Some(Instruction::return_ { data_type: ReturnType::Float }),
        0xaf => Some(Instruction::return_ { data_type: ReturnType::Double }),
        0xb0 => Some(Instruction::return_ { data_type: ReturnType::Reference }),
        0xb1 => Some(Instruction::return_ { data_type: ReturnType::Void }),
        0xbe => Some(Instruction::arraylength),
        0xbf => Some(Instruction::athrow),
        0xc2 => Some(Instruction::monitorenter),
        0xc3 => Some(Instruction::monitorexit),
        _ => None,
    }
}

/// Executable form of [`local_instruction`].
pub fn decode_local(op: u8, index: u8) -> (r: Option<Instruction>)
    ensures
        r == local_instruction(op, index),
{
    match op {
        0x15 => Some(Instruction::load { data_type: LoadStoreType::Int, index }),
        0x16 => Some(Instruction::load { data_type: LoadStoreType::Long, index }),
        0x17 => Some(Instruction::load { data_type: LoadStoreType::Float, index }),
        0x18 => Some(Instruction::load { data_type: LoadStoreType::Double, index }),
        0x19 => Some(Instruction::load { data_type: LoadStoreType::Reference, index }),
        0x36 => Some(Instruction::store { data_type: LoadStoreType::Int, index }),
        0x37 => Some(Instruction::store { data_type: LoadStoreType::Long, index }),
        0x38 => Some(Instruction::store { data_type: LoadStoreType::Float, index }),
        0x39 => Some(Instruction::store { data_type: LoadStoreType::Double, index }),
        0x3a => Some(Instruction::store { data_type: LoadStoreType::Reference, index }),
        0xa9 => Some(Instruction::ret { index }),
        _ => None,
    }
}

/// Executable form of [`pool_instruction`].
pub fn decode_pool(op: u8, index: u16) -> (r: Option<Instruction>)
    ensures
        r == pool_instruction(op, index),
{
    match op {
        0x13 => Some(Instruction::ldc { index }),
        0x14 => Some(Instruction::ldc2 { index }),
        0xb2 => Some(Instruction::getstatic { index }),
        0xb3 => Some(Instruction::putstatic { index }),
        0xb4 => Some(Instruction::getfield { index }),
        0xb5 => Some(Instruction::putfield { index }),
        0xb6 => Some(Instruction::invoke { kind: InvokeKind::Virtual, index }),
        0xb7 => Some(Instruction::invoke { kind: InvokeKind::Special, index }),
        0xb8 => Some(Instruction::invoke { kind: InvokeKind::Static, index }),
        0xbb => Some(Instruction::new { index }),
        0xbd => Some(Instruction::anewarray { index }),
        0xc0 => Some(Instruction::checkcast { index }),
        0xc1 => Some(Instruction::instanceof { index }),
        _ => None,
    }
}

/// Executable form of [`branch_instruction`].
pub fn decode_branch(op: u8, branch: i16) -> (r: Option<Instruction>)
    ensures
        r == branch_instruction(op, branch),
{
    match op {
        0x99 => Some(Instruction::if_ { condition: Condition::Eq, branch }),
        0x9a => Some(Instruction::if_ { condition: Condition::Ne, branch }),
        0x9b => Some(Instruction::if_ { condition: Condition::Lt, branch }),
        0x9c => Some(Instruction::if_ { condition: Condition::Ge, branch }),
        0x9d => Some(Instruction::if_ { condition: Condition::Gt, branch }),
        0x9e => Some(Instruction::if_ { condition: Condition::Le, branch }),
        0x9f => Some(Instruction::if_icmp { condition: Condition::Eq, branch }),
        0xa0 => Some(Instruction::if_icmp { condition: Condition::Ne, branch }),
        0xa1 => Some(Instruction::if_icmp { condition: Condition::Lt, branch }),
        0xa2 => Some(Instruction::if_icmp { condition: Condition::Ge, branch }),
        0xa3 => Some(Instruction::if_icmp { condition: Condition::Gt, branch }),
        0xa4 => Some(Instruction::if_icmp { condition: Condition::Le, branch }),
        0xa5 => Some(Instruction::if_acmp { condition: EqCondition::Eq, branch }),
        0xa6 => Some(Instruction::if_acmp { condition: EqCondition::Ne, branch }),
        0xc6 => Some(Instruction::ifnull { branch }),
        0xc7 => Some(Instruction::ifnonnull { branch }),
        _ => None,
    }
}

/// Executable form of [`jump_instruction`].
pub fn decode_jump(op: u8, branch: i32) -> (r: Option<Instruction>)
    ensures
        r == jump_instruction(op, branch),
{
    match op {
        0xa7 | 0xc8 => Some(Instruction::goto { branch }),
        0xa8 | 0xc9 => Some(Instruction::jsr { branch }),
        _ => None,
    }
}

} // verus!
