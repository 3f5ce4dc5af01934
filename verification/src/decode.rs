//! The instruction decoder.
//!
//! A method's code is a run of bytes in which every instruction is one opcode
//! byte followed by its operands. Decoding turns it into a sequence of
//! [`Instruction`]s. A branch operand is written in the code as a distance in
//! bytes from the branching opcode; in the decoded sequence it is a distance
//! in instructions from the branching instruction.

use crate::bytes::{
    be_i16, be_i32, be_i8, be_u16, i16_at, i16_of_int, i16_to_i32, i32_at, i32_of_int, i32_to_i16,
    i8_at, in_bounds, int_of_i16, int_of_i32, u16_at, u8_at, u8_to_u16,
};
use crate::instructions::{ArrayType, Instruction, InvokeKind};
use crate::opcodes::{
    branch_instruction, decode_branch, decode_jump, decode_local, decode_plain, decode_pool,
    jump_instruction, local_instruction, plain_instruction, pool_instruction,
};
use vstd::prelude::*;

verus! {

/// Why a method's code could not be decoded.
#[derive(Clone, Copy, Debug, PartialEq, Eq, Structural)]
pub enum DecodeError {
    /// No instruction is assigned to this opcode byte.
    UnknownOpcode(u8),
    /// The opcode is assigned, but may not occur in a method body: `wide` and
    /// the reserved opcodes.
    UnexpectedOpcode(u8),
    /// The code ends in the middle of an instruction.
    TruncatedCode,
    /// A byte that the format reserves as zero is not zero.
    InvalidReservedByte,
    /// The count byte of `invokeinterface` is zero.
    ZeroInterfaceCount,
    /// The element type tag of `newarray` names no primitive type.
    UnknownArrayType,
    /// A switch instruction declares a negative number of entries.
    InvalidSwitch,
    /// A branch leads outside the code or into the middle of an instruction.
    InvalidBranchTarget,
}

/// The first multiple of four at or after `at`.
pub open spec fn align4(at: int) -> int {
    if at % 4 == 0 {
        at
    } else {
        at + 4 - at % 4
    }
}

/// The instruction that starts at `pc` and the address after it. Branch
/// operands are still distances in bytes.
pub open spec fn instruction_at(code: Seq<u8>, pc: int) -> Result<(Instruction, int), DecodeError>
    recommends
        0 <= pc < code.len(),
{
    let op = code[pc];
    if plain_instruction(op) is Some {
        Ok((plain_instruction(op).unwrap(), pc + 1))
    } else if local_instruction(op, 0) is Some {
        if in_bounds(code, pc + 1, 1) {
            Ok((local_instruction(op, code[pc + 1]).unwrap(), pc + 2))
        } else {
            Err(DecodeError::TruncatedCode)
        }
    } else if pool_instruction(op, 0) is Some {
        if in_bounds(code, pc + 1, 2) {
            Ok((pool_instruction(op, be_u16(code, pc + 1)).unwrap(), pc + 3))
        } else {
            Err(DecodeError::TruncatedCode)
        }
    } else if branch_instruction(op, 0) is Some {
        if in_bounds(code, pc + 1, 2) {
            Ok((branch_instruction(op, be_i16(code, pc + 1)).unwrap(), pc + 3))
        } else {
            Err(DecodeError::TruncatedCode)
        }
    } else {
        operand_instruction_at(code, pc)
    }
}

/// [`instruction_at`] for the opcodes whose operands follow no common shape.
pub open spec fn operand_instruction_at(code: Seq<u8>, pc: int) -> Result<
    (Instruction, int),
    DecodeError,
> {
    let op = code[pc];
    match op {
        // bipush
        0x10 => if in_bounds(code, pc + 1, 1) {
            Ok((Instruction::bipush { value: be_i8(code, pc + 1) }, pc + 2))
        } else {
            Err(DecodeError::TruncatedCode)
        },
        // sipush
        0x11 => if in_bounds(code, pc + 1, 2) {
            Ok((Instruction::sipush { value: be_i16(code, pc + 1) }, pc + 3))
        } else {
            Err(DecodeError::TruncatedCode)
        },
        // ldc
        0x12 => if in_bounds(code, pc + 1, 1) {
            Ok((Instruction::ldc { index: code[pc + 1] as u16 }, pc + 2))
        } else {
            Err(DecodeError::TruncatedCode)
        },
        // iinc
        0x84 => if in_bounds(code, pc + 1, 2) {
            Ok((Instruction::inc { index: code[pc + 1], value: be_i8(code, pc + 2) }, pc + 3))
        } else {
            Err(DecodeError::TruncatedCode)
        },
        // goto, jsr
        0xa7 | 0xa8 => if in_bounds(code, pc + 1, 2) {
            Ok((jump_instruction(op, be_i16(code, pc + 1) as i32).unwrap(), pc + 3))
        } else {
            Err(DecodeError::TruncatedCode)
        },
        // goto_w, jsr_w
        0xc8 | 0xc9 => if in_bounds(code, pc + 1, 4) {
            Ok((jump_instruction(op, be_i32(code, pc + 1)).unwrap(), pc + 5))
        } else {
            Err(DecodeError::TruncatedCode)
        },
        // tableswitch
        0xaa => {
            let table = align4(pc + 1);
            if !in_bounds(code, table, 12) {
                Err(DecodeError::TruncatedCode)
            } else {
                let entries = be_i32(code, table + 8) - be_i32(code, table + 4) + 1;
                if entries < 0 {
                    Err(DecodeError::InvalidSwitch)
                } else if table + 12 + 4 * entries > code.len() {
                    Err(DecodeError::TruncatedCode)
                } else {
                    Ok((Instruction::tableswitch, table + 12 + 4 * entries))
                }
            }
        },
        // lookupswitch
        0xab => {
            let table = align4(pc + 1);
            if !in_bounds(code, table, 8) {
                Err(DecodeError::TruncatedCode)
            } else {
                let pairs = be_i32(code, table + 4) as int;
                if pairs < 0 {
                    Err(DecodeError::InvalidSwitch)
                } else if table + 8 + 8 * pairs > code.len() {
                    Err(DecodeError::TruncatedCode)
                } else {
                    Ok((Instruction::lookupswitch, table + 8 + 8 * pairs))
                }
            }
        },
        // invokeinterface
        0xb9 => if !in_bounds(code, pc + 1, 3) {
            Err(DecodeError::TruncatedCode)
        } else if code[pc + 3] == 0 {
            Err(DecodeError::ZeroInterfaceCount)
        } else if !in_bounds(code, pc + 4, 1) {
            Err(DecodeError::TruncatedCode)
        } else if code[pc + 4] != 0 {
            Err(DecodeError::InvalidReservedByte)
        } else {
            Ok(
                (
                    Instruction::invoke {
                        kind: InvokeKind::Interface { count: code[pc + 3] },
                        index: be_u16(code, pc + 1),
                    },
                    pc + 5,
                ),
            )
        },
        // invokedynamic
        0xba => if !in_bounds(code, pc + 1, 4) {
            Err(DecodeError::TruncatedCode)
        } else if be_u16(code, pc + 3) != 0 {
            Err(DecodeError::InvalidReservedByte)
        } else {
            Ok(
                (
                    Instruction::invoke { kind: InvokeKind::Dynamic, index: be_u16(code, pc + 1) },
                    pc + 5,
                ),
            )
        },
        // newarray
        0xbc => if !in_bounds(code, pc + 1, 1) {
            Err(DecodeError::TruncatedCode)
        } else {
            match ArrayType::of_tag(code[pc + 1]) {
                Some(atype) => Ok((Instruction::newarray { atype }, pc + 2)),
                None => Err(DecodeError::UnknownArrayType),
            }
        },
        // multianewarray
        0xc5 => if in_bounds(code, pc + 1, 3) {
            Ok(
                (
                    Instruction::multianewarray {
                        index: be_u16(code, pc + 1),
                        dimensions: code[pc + 3],
                    },
                    pc + 4,
                ),
            )
        } else {
            Err(DecodeError::TruncatedCode)
        },
        // wide, breakpoint, impdep1, impdep2
        0xc4 | 0xca | 0xfe | 0xff => Err(DecodeError::UnexpectedOpcode(op)),
        _ => Err(DecodeError::UnknownOpcode(op)),
    }
}

/// An instruction ends after the address it starts at, and within the code.
pub proof fn lemma_instruction_extent(code: Seq<u8>, pc: int)
    requires
        0 <= pc < code.len(),
    ensures
        instruction_at(code, pc) matches Ok((_, next)) ==> pc < next <= code.len(),
{
}

/// Decodes the instruction that starts at `pc`.
pub fn decode_at(code: &[u8], pc: usize) -> (r: Result<(Instruction, usize), DecodeError>)
    requires
        pc < code.len(),
    ensures
        match r {
            Ok((instruction, next)) => instruction_at(code@, pc as int) == Ok::<
                (Instruction, int),
                DecodeError,
            >((instruction, next as int)),
            Err(e) => instruction_at(code@, pc as int) == Err::<(Instruction, int), DecodeError>(e),
        },
{
    let op = code[pc];
    if let Some(instruction) = decode_plain(op) {
        return Ok((instruction, pc + 1));
    }
    if decode_local(op, 0).is_some() {
        return match u8_at(code, pc + 1) {
            Some(index) => Ok((decode_local(op, index).unwrap(), pc + 2)),
            None => Err(DecodeError::TruncatedCode),
        };
    }
    if decode_pool(op, 0).is_some() {
        return match u16_at(code, pc + 1) {
            Some(index) => Ok((decode_pool(op, index).unwrap(), pc + 3)),
            None => Err(DecodeError::TruncatedCode),
        };
    }
    if decode_branch(op, 0).is_some() {
        return match i16_at(code, pc + 1) {
            Some(offset) => Ok((decode_branch(op, offset).unwrap(), pc + 3)),
            None => Err(DecodeError::TruncatedCode),
        };
    }
    decode_operands_at(code, pc)
}

/// [`decode_at`] for the opcodes whose operands follow no common shape.
fn decode_operands_at(code: &[u8], pc: usize) -> (r: Result<(Instruction, usize), DecodeError>)
    requires
        pc < code.len(),
    ensures
        match r {
            Ok((instruction, next)) => operand_instruction_at(code@, pc as int) == Ok::<
                (Instruction, int),
                DecodeError,
            >((instruction, next as int)),
            Err(e) => operand_instruction_at(code@, pc as int) == Err::<
                (Instruction, int),
                DecodeError,
            >(e),
        },
{
    let op = code[pc];
    let len = code.len();
    match op {
        0x10 => match i8_at(code, pc + 1) {
            Some(value) => Ok((Instruction::bipush(value), pc + 2)),
            None => Err(DecodeError::TruncatedCode),
        },
        0x11 => match i16_at(code, pc + 1) {
            Some(value) => Ok((Instruction::sipush(value), pc + 3)),
            None => Err(DecodeError::TruncatedCode),
        },
        0x12 => match u8_at(code, pc + 1) {
            Some(index) => Ok((Instruction::ldc(u8_to_u16(index)), pc + 2)),
            None => Err(DecodeError::TruncatedCode),
        },
        0x84 => {
            if len - pc < 3 {
                return Err(DecodeError::TruncatedCode);
            }
            let index = u8_at(code, pc + 1).unwrap();
            let value = i8_at(code, pc + 2).unwrap();
            Ok((Instruction::inc(index, value), pc + 3))
        },
        0xa7 | 0xa8 => match i16_at(code, pc + 1) {
            Some(offset) => Ok((decode_jump(op, i16_to_i32(offset)).unwrap(), pc + 3)),
            None => Err(DecodeError::TruncatedCode),
        },
        0xc8 | 0xc9 => match i32_at(code, pc + 1) {
            Some(offset) => Ok((decode_jump(op, offset).unwrap(), pc + 5)),
            None => Err(DecodeError::TruncatedCode),
        },
        0xaa => {
            let start = pc + 1;
            let pad = if start % 4 == 0 {
                0
            } else {
                4 - start % 4
            };
            if len - start < pad || len - start - pad < 12 {
                return Err(DecodeError::TruncatedCode);
            }
            let table = start + pad;
            let low = i32_at(code, table + 4).unwrap();
            let high = i32_at(code, table + 8).unwrap();
            let entries: i64 = high as i64 - low as i64 + 1;
            if entries < 0 {
                return Err(DecodeError::InvalidSwitch);
            }
            let room = len - table - 12;
            if 4 * (entries as u64) > room as u64 {
                return Err(DecodeError::TruncatedCode);
            }
            Ok((Instruction::tableswitch, table + 12 + 4 * (entries as usize)))
        },
        0xab => {
            let start = pc + 1;
            let pad = if start % 4 == 0 {
                0
            } else {
                4 - start % 4
            };
            if len - start < pad || len - start - pad < 8 {
                return Err(DecodeError::TruncatedCode);
            }
            let table = start + pad;
            let pairs = i32_at(code, table + 4).unwrap();
            if pairs < 0 {
                return Err(DecodeError::InvalidSwitch);
            }
            let room = len - table - 8;
            if 8 * (pairs as u64) > room as u64 {
                return Err(DecodeError::TruncatedCode);
            }
            Ok((Instruction::lookupswitch, table + 8 + 8 * (pairs as usize)))
        },
        0xb9 => {
            if len - pc < 4 {
                return Err(DecodeError::TruncatedCode);
            }
            let index = u16_at(code, pc + 1).unwrap();
            let count = u8_at(code, pc + 3).unwrap();
            if count == 0 {
                return Err(DecodeError::ZeroInterfaceCount);
            }
            match u8_at(code, pc + 4) {
                None => Err(DecodeError::TruncatedCode),
                Some(zero) => if zero != 0 {
                    Err(DecodeError::InvalidReservedByte)
                } else {
                    Ok((Instruction::invoke(InvokeKind::Interface { count }, index), pc + 5))
                },
            }
        },
        0xba => {
            if len - pc < 5 {
                return Err(DecodeError::TruncatedCode);
            }
            let index = u16_at(code, pc + 1).unwrap();
            let zero = u16_at(code, pc + 3).unwrap();
            if zero != 0 {
                Err(DecodeError::InvalidReservedByte)
            } else {
                Ok((Instruction::invoke(InvokeKind::Dynamic, index), pc + 5))
            }
        },
        0xbc => match u8_at(code, pc + 1) {
            None => Err(DecodeError::TruncatedCode),
            Some(tag) => match ArrayType::from_repr(tag) {
                Some(atype) => Ok((Instruction::newarray(atype), pc + 2)),
                None => Err(DecodeError::UnknownArrayType),
            },
        },
        0xc5 => {
            if len - pc < 4 {
                return Err(DecodeError::TruncatedCode);
            }
            let index = u16_at(code, pc + 1).unwrap();
            let dimensions = u8_at(code, pc + 3).unwrap();
            Ok((Instruction::multianewarray(index, dimensions), pc + 4))
        },
        0xc4 | 0xca | 0xfe | 0xff => Err(DecodeError::UnexpectedOpcode(op)),
        _ => Err(DecodeError::UnknownOpcode(op)),
    }
}

/// The instructions of a method in the order of their addresses, each with
/// the address it starts at. Branch operands are still distances in bytes.
pub struct Scanned {
    pub instructions: Seq<Instruction>,
    pub addresses: Seq<int>,
}

/// `head` followed by what `rest` holds, or the error of `rest`.
pub open spec fn scanned_after(head: Scanned, rest: Result<Scanned, DecodeError>) -> Result<
    Scanned,
    DecodeError,
> {
    match rest {
        Ok(tail) => Ok(
            Scanned {
                instructions: head.instructions + tail.instructions,
                addresses: head.addresses + tail.addresses,
            },
        ),
        Err(e) => Err(e),
    }
}

/// The instructions of `code` from address `pc` to its end, or the error of
/// the first instruction that cannot be decoded.
pub open spec fn scan(code: Seq<u8>, pc: int) -> Result<Scanned, DecodeError>
    decreases code.len() - pc,
{
    if pc < 0 || pc >= code.len() {
        Ok(Scanned { instructions: Seq::empty(), addresses: Seq::empty() })
    } else {
        match instruction_at(code, pc) {
            Err(e) => Err(e),
            Ok((instruction, next)) => if next <= pc {
                Err(DecodeError::TruncatedCode)
            } else {
                scanned_after(
                    Scanned { instructions: seq![instruction], addresses: seq![pc] },
                    scan(code, next),
                )
            },
        }
    }
}

/// The distance that a branching instruction holds; `None` for an instruction
/// that does not branch.
pub open spec fn branch_offset(instruction: Instruction) -> Option<int> {
    match instruction {
        Instruction::if_ { branch, .. } => Some(int_of_i16(branch)),
        Instruction::if_icmp { branch, .. } => Some(int_of_i16(branch)),
        Instruction::if_acmp { branch, .. } => Some(int_of_i16(branch)),
        Instruction::ifnull { branch } => Some(int_of_i16(branch)),
        Instruction::ifnonnull { branch } => Some(int_of_i16(branch)),
        Instruction::goto { branch } => Some(int_of_i32(branch)),
        Instruction::jsr { branch } => Some(int_of_i32(branch)),
        _ => None,
    }
}

/// The same instruction with its branch distance replaced; an instruction
/// that does not branch is left as it is.
pub open spec fn with_branch(instruction: Instruction, offset: int) -> Instruction {
    match instruction {
        Instruction::if_ { condition, .. } => Instruction::if_ {
            condition,
            branch: i16_of_int(offset),
        },
        Instruction::if_icmp { condition, .. } => Instruction::if_icmp {
            condition,
            branch: i16_of_int(offset),
        },
        Instruction::if_acmp { condition, .. } => Instruction::if_acmp {
            condition,
            branch: i16_of_int(offset),
        },
        Instruction::ifnull { .. } => Instruction::ifnull { branch: i16_of_int(offset) },
        Instruction::ifnonnull { .. } => Instruction::ifnonnull { branch: i16_of_int(offset) },
        Instruction::goto { .. } => Instruction::goto { branch: i32_of_int(offset) },
        Instruction::jsr { .. } => Instruction::jsr { branch: i32_of_int(offset) },
        other => other,
    }
}

/// The index of the instruction that starts at `address`, if one does.
pub open spec fn index_at(addresses: Seq<int>, address: int) -> Option<int> {
    if exists|i: int| 0 <= i < addresses.len() && addresses[i] == address {
        Some(choose|i: int| 0 <= i < addresses.len() && addresses[i] == address)
    } else {
        None
    }
}

/// Instruction `i` with its branch, if it has one, turned from a distance in
/// bytes into a distance in instructions. A branch to an address at which no
/// instruction starts is an error.
pub open spec fn relinked_at(scanned: Scanned, i: int) -> Result<Instruction, DecodeError> {
    let instruction = scanned.instructions[i];
    match branch_offset(instruction) {
        None => Ok(instruction),
        Some(offset) => match index_at(scanned.addresses, scanned.addresses[i] + offset) {
            Some(target) => Ok(with_branch(instruction, target - i)),
            None => Err(DecodeError::InvalidBranchTarget),
        },
    }
}

/// The first `n` instructions relinked, or the error of the first among them
/// whose branch leads nowhere.
pub open spec fn relinked(scanned: Scanned, n: int) -> Result<Seq<Instruction>, DecodeError>
    decreases n,
{
    if n <= 0 {
        Ok(Seq::empty())
    } else {
        match relinked(scanned, n - 1) {
            Err(e) => Err(e),
            Ok(done) => match relinked_at(scanned, n - 1) {
                Err(e) => Err(e),
                Ok(instruction) => Ok(done.push(instruction)),
            },
        }
    }
}

/// What a method's code decodes to.
pub open spec fn decoded(code: Seq<u8>) -> Result<Seq<Instruction>, DecodeError> {
    match scan(code, 0) {
        Err(e) => Err(e),
        Ok(scanned) => relinked(scanned, scanned.instructions.len() as int),
    }
}

/// Every branch of `code` lands on an instruction: where instruction `i`
/// holds a distance, the instruction that many places away exists, and it
/// starts at the address that the branch named in bytes.
pub open spec fn branches_resolved(scanned: Scanned, code: Seq<Instruction>) -> bool {
    forall|i: int|
        0 <= i < code.len() ==> match #[trigger] branch_offset(code[i]) {
            None => branch_offset(scanned.instructions[i]) is None,
            Some(distance) => {
                &&& 0 <= i + distance < code.len()
                &&& branch_offset(scanned.instructions[i]) is Some
                &&& scanned.addresses[i + distance] == scanned.addresses[i] + branch_offset(
                    scanned.instructions[i],
                ).unwrap()
            },
        }
}

/// The addresses rise at least as fast as the indices: between two
/// instructions lie at least as many bytes as instructions.
pub open spec fn addresses_spread(addresses: Seq<int>) -> bool {
    forall|i: int, j: int|
        0 <= i <= j < addresses.len() ==> #[trigger] addresses[i] + (j - i) <= #[trigger] addresses[j]
}

/// The addresses of the instructions of a method lie within the code, from
/// the address at which the scan began, and they rise at least as fast as the
/// indices: no two instructions start at the same address.
pub proof fn lemma_scan_addresses(code: Seq<u8>, pc: int)
    requires
        0 <= pc,
        scan(code, pc) is Ok,
    ensures
        ({
            let scanned = scan(code, pc).unwrap();
            &&& scanned.instructions.len() == scanned.addresses.len()
            &&& addresses_spread(scanned.addresses)
            &&& forall|i: int|
                0 <= i < scanned.addresses.len() ==> pc + i <= #[trigger] scanned.addresses[i]
                    < code.len()
        }),
    decreases code.len() - pc,
{
    if pc < code.len() {
        lemma_instruction_extent(code, pc);
        let (instruction, next) = instruction_at(code, pc).unwrap();
        lemma_scan_addresses(code, next);
        let rest = scan(code, next).unwrap();
        let scanned = scan(code, pc).unwrap();
        assert(scanned.addresses =~= seq![pc] + rest.addresses);
        assert(scanned.instructions =~= seq![instruction] + rest.instructions);
        assert forall|i: int| 0 <= i < scanned.addresses.len() implies pc + i
            <= #[trigger] scanned.addresses[i] < code.len() by {
            if i > 0 {
                assert(scanned.addresses[i] == rest.addresses[i - 1]);
            }
        }
        assert forall|i: int, j: int| 0 <= i <= j < scanned.addresses.len() implies #[trigger]
            scanned.addresses[i] + (j - i) <= #[trigger] scanned.addresses[j] by {
            if i > 0 {
                assert(scanned.addresses[i] == rest.addresses[i - 1]);
                assert(scanned.addresses[j] == rest.addresses[j - 1]);
                assert(rest.addresses[i - 1] + ((j - 1) - (i - 1)) <= rest.addresses[j - 1]);
            } else if j > 0 {
                assert(scanned.addresses[j] == rest.addresses[j - 1]);
                assert(next + (j - 1) <= rest.addresses[j - 1]);
            }
        }
    }
}

/// Addresses and indices of instructions stand one to one: the instruction
/// that starts at the address of instruction `i` is instruction `i`, and no
/// other.
pub proof fn lemma_index_of_address(code: Seq<u8>, i: int)
    requires
        scan(code, 0) is Ok,
        0 <= i < scan(code, 0).unwrap().addresses.len(),
    ensures
        index_at(scan(code, 0).unwrap().addresses, scan(code, 0).unwrap().addresses[i]) == Some(
            i,
        ),
{
    lemma_scan_addresses(code, 0);
    let addresses = scan(code, 0).unwrap().addresses;
    let j = choose|j: int| 0 <= j < addresses.len() && addresses[j] == addresses[i];
    if j < i {
        assert(addresses[j] + (i - j) <= addresses[i]);
    } else if i < j {
        assert(addresses[i] + (j - i) <= addresses[j]);
    }
}

/// Mark in the index table of an address at which no instruction starts.
pub const NO_INDEX: usize = usize::MAX;

/// `table` maps each address of `addresses` to its index, and every other
/// address to [`NO_INDEX`].
pub open spec fn is_index_table(addresses: Seq<int>, table: Seq<usize>) -> bool {
    &&& forall|i: int|
        0 <= i < addresses.len() ==> 0 <= #[trigger] addresses[i] < table.len()
            && table[addresses[i]] == i
    &&& forall|a: int|
        0 <= a < table.len() && #[trigger] table[a] != NO_INDEX ==> table[a] < addresses.len()
            && addresses[table[a] as int] == a
}

/// The addresses of a decoded method as mathematical integers.
pub open spec fn address_ints(addresses: Seq<usize>) -> Seq<int> {
    addresses.map_values(|a: usize| a as int)
}

/// With an index table at hand, [`index_at`] is a look-up in it.
proof fn lemma_index_at(addresses: Seq<int>, table: Seq<usize>, address: int)
    requires
        is_index_table(addresses, table),
        addresses_spread(addresses),
        table.len() <= usize::MAX,
    ensures
        index_at(addresses, address) == (if 0 <= address < table.len() && table[address]
            != NO_INDEX {
            Some(table[address] as int)
        } else {
            None
        }),
{
    if 0 <= address < table.len() && table[address] != NO_INDEX {
        let j = table[address] as int;
        assert(0 <= j < addresses.len() && addresses[j] == address);
        let k = choose|i: int| 0 <= i < addresses.len() && addresses[i] == address;
        assert(table[addresses[k]] == k);
    } else {
        if exists|i: int| 0 <= i < addresses.len() && addresses[i] == address {
            let k = choose|i: int| 0 <= i < addresses.len() && addresses[i] == address;
            assert(table[addresses[k]] == k);
            assert(addresses[0] + (k - 0) <= addresses[k]);
            assert(0 <= addresses[0]);
            assert(false);
        }
    }
}

/// Once relinking has failed at some instruction, it has failed for every
/// longer prefix, with the same error.
proof fn lemma_relinked_error(scanned: Scanned, i: int, n: int)
    requires
        0 <= i < n,
        relinked(scanned, i) is Ok,
        relinked_at(scanned, i) is Err,
    ensures
        relinked(scanned, n) == Err::<Seq<Instruction>, DecodeError>(
            relinked_at(scanned, i)->Err_0,
        ),
    decreases n,
{
    if n == i + 1 {
    } else {
        lemma_relinked_error(scanned, i, n - 1);
    }
}

/// The distance in bytes that `instruction` holds, if it branches.
fn raw_offset(instruction: Instruction) -> (r: Option<i32>)
    ensures
        match r {
            Some(offset) => branch_offset(instruction) == Some(int_of_i32(offset)),
            None => branch_offset(instruction) is None,
        },
{
    match instruction {
        Instruction::if_ { branch, .. } => Some(i16_to_i32(branch)),
        Instruction::if_icmp { branch, .. } => Some(i16_to_i32(branch)),
        Instruction::if_acmp { branch, .. } => Some(i16_to_i32(branch)),
        Instruction::ifnull { branch } => Some(i16_to_i32(branch)),
        Instruction::ifnonnull { branch } => Some(i16_to_i32(branch)),
        Instruction::goto { branch } => Some(branch),
        Instruction::jsr { branch } => Some(branch),
        _ => None,
    }
}

/// Whether `offset` fits the branch operand of `instruction`.
pub open spec fn offset_fits(instruction: Instruction, offset: int) -> bool {
    match instruction {
        Instruction::goto { .. } => true,
        Instruction::jsr { .. } => true,
        _ => -0x8000 <= offset < 0x8000,
    }
}

/// `instruction` with its branch distance replaced by `offset`.
fn set_offset(instruction: Instruction, offset: i32) -> (r: Instruction)
    requires
        branch_offset(instruction) is Some,
        offset_fits(instruction, int_of_i32(offset)),
    ensures
        r == with_branch(instruction, int_of_i32(offset)),
        branch_offset(r) == Some(int_of_i32(offset)),
{
    match instruction {
        Instruction::if_ { condition, .. } => Instruction::if_ {
            condition,
            branch: i32_to_i16(offset),
        },
        Instruction::if_icmp { condition, .. } => Instruction::if_icmp {
            condition,
            branch: i32_to_i16(offset),
        },
        Instruction::if_acmp { condition, .. } => Instruction::if_acmp {
            condition,
            branch: i32_to_i16(offset),
        },
        Instruction::ifnull { .. } => Instruction::ifnull { branch: i32_to_i16(offset) },
        Instruction::ifnonnull { .. } => Instruction::ifnonnull { branch: i32_to_i16(offset) },
        Instruction::goto { .. } => Instruction::goto { branch: offset },
        Instruction::jsr { .. } => Instruction::jsr { branch: offset },
        other => other,
    }
}

/// Turns the distance in bytes `offset`, held by instruction `at`, into a
/// distance in instructions; `None` where no instruction starts at the target.
fn relocate(addresses: &Vec<usize>, table: &Vec<usize>, at: usize, offset: i32) -> (r: Option<i32>)
    requires
        at < addresses.len(),
        is_index_table(address_ints(addresses@), table@),
        addresses_spread(address_ints(addresses@)),
    ensures
        match r {
            Some(distance) => {
                &&& index_at(address_ints(addresses@), addresses[at as int] + offset) == Some(
                    at + distance,
                )
                &&& 0 <= at + distance < addresses.len()
                &&& addresses[at + distance] == addresses[at as int] + offset
                &&& (offset >= 0 ==> 0 <= distance <= offset)
                &&& (offset <= 0 ==> offset <= distance <= 0)
            },
            None => index_at(address_ints(addresses@), addresses[at as int] + offset) is None,
        },
{
    let ghost ints = address_ints(addresses@);
    let target: i128 = addresses[at] as i128 + offset as i128;
    proof {
        assert(table@.len() == table.len());
        lemma_index_at(ints, table@, target as int);
        assert(ints[at as int] == addresses[at as int]);
    }
    if target < 0 || target >= table.len() as i128 {
        return None;
    }
    let index = table[target as usize];
    if index == NO_INDEX {
        None
    } else {
        proof {
            assert(ints[index as int] == addresses[index as int]);
            if index >= at {
                assert(ints[at as int] + (index - at) <= ints[index as int]);
            } else {
                assert(ints[index as int] + (at - index) <= ints[at as int]);
            }
        }
        Some((index as i128 - at as i128) as i32)
    }
}

/// Decodes a method's code.
///
/// The result is the instructions in the order of their addresses. Each
/// branch holds the distance, in instructions, to the instruction that starts
/// at the address it named in bytes; a branch that names any other address
/// is refused. So every branch of a decoded method lands inside the method.
pub fn decode_instructions(bytes: &[u8]) -> (r: Result<Vec<Instruction>, DecodeError>)
    ensures
        match r {
            Ok(code) => decoded(bytes@) == Ok::<Seq<Instruction>, DecodeError>(code@)
                && branches_resolved(scan(bytes@, 0).unwrap(), code@),
            Err(e) => decoded(bytes@) == Err::<Seq<Instruction>, DecodeError>(e),
        },
{
    let mut instructions: Vec<Instruction> = Vec::new();
    let mut addresses: Vec<usize> = Vec::new();
    let mut table: Vec<usize> = vec![NO_INDEX; bytes.len()];
    let mut pc: usize = 0;
    while pc < bytes.len()
        invariant
            pc <= bytes.len(),
            table.len() == bytes.len(),
            instructions.len() == addresses.len(),
            scan(bytes@, 0) == scanned_after(
                Scanned { instructions: instructions@, addresses: address_ints(addresses@) },
                scan(bytes@, pc as int),
            ),
            forall|i: int|
                0 <= i < addresses.len() ==> #[trigger] addresses[i] + (addresses.len() - i) <= pc,
            forall|a: int| pc <= a < table.len() ==> #[trigger] table[a] == NO_INDEX,
            addresses_spread(address_ints(addresses@)),
            is_index_table(address_ints(addresses@), table@),
        decreases bytes.len() - pc,
    {
        let ghost old_ints = address_ints(addresses@);
        let ghost old_instructions = instructions@;
        let ghost old_table = table@;
        proof {
            lemma_instruction_extent(bytes@, pc as int);
        }
        match decode_at(bytes, pc) {
            Err(e) => {
                return Err(e);
            },
            Ok((instruction, next)) => {
                let index = instructions.len();
                table.set(pc, index);
                addresses.push(pc);
                instructions.push(instruction);
                proof {
                    let ints = address_ints(addresses@);
                    assert(ints =~= old_ints.push(pc as int));
                    assert(ints =~= old_ints + seq![pc as int]);
                    assert(instructions@ =~= old_instructions + seq![instruction]);
                    let rest = scan(bytes@, next as int);
                    if rest is Ok {
                        let tail = rest.unwrap();
                        assert((old_instructions + (seq![instruction] + tail.instructions))
                            =~= instructions@ + tail.instructions);
                        assert((old_ints + (seq![pc as int] + tail.addresses)) =~= ints
                            + tail.addresses);
                    }
                    assert forall|i: int, j: int| 0 <= i <= j < ints.len() implies #[trigger] ints[i]
                        + (j - i) <= #[trigger] ints[j] by {
                        if j < old_ints.len() {
                            assert(old_ints[i] + (j - i) <= old_ints[j]);
                        } else if i < old_ints.len() {
                            assert(addresses[i] + (old_ints.len() - i) <= pc);
                        }
                    }
                    assert forall|i: int| 0 <= i < ints.len() implies 0 <= #[trigger] ints[i]
                        < table.len() && table[ints[i]] == i by {
                        if i < old_ints.len() {
                            assert(old_ints[i] == addresses[i]);
                            assert(addresses[i] + (old_ints.len() - i) <= pc);
                            assert(old_table[old_ints[i]] == i);
                        }
                    }
                    assert forall|a: int|
                        0 <= a < table.len() && #[trigger] table[a] != NO_INDEX implies table[a]
                        < ints.len() && ints[table[a] as int] == a by {
                        if a != pc {
                            assert(old_table[a] != NO_INDEX);
                            assert(old_ints[old_table[a] as int] == a);
                        }
                    }
                    assert forall|i: int| 0 <= i < addresses.len() implies #[trigger] addresses[i]
                        + (addresses.len() - i) <= next by {
                        if i < old_ints.len() {
                            assert(old_ints[i] == addresses[i]);
                        }
                    }
                }
                pc = next;
            },
        }
    }
    let ghost scanned = Scanned {
        instructions: instructions@,
        addresses: address_ints(addresses@),
    };
    proof {
        assert(scanned.instructions + Seq::<Instruction>::empty() =~= scanned.instructions);
        assert(scanned.addresses + Seq::<int>::empty() =~= scanned.addresses);
        assert(scan(bytes@, 0) == Ok::<Scanned, DecodeError>(scanned));
    }
    let count = instructions.len();
    let mut i: usize = 0;
    proof {
        assert(instructions@.subrange(0, 0) =~= Seq::<Instruction>::empty());
    }
    while i < count
        invariant
            i <= count,
            count == instructions.len(),
            count == addresses.len(),
            scanned.instructions.len() == count,
            scanned.addresses == address_ints(addresses@),
            scan(bytes@, 0) == Ok::<Scanned, DecodeError>(scanned),
            addresses_spread(address_ints(addresses@)),
            is_index_table(address_ints(addresses@), table@),
            relinked(scanned, i as int) == Ok::<Seq<Instruction>, DecodeError>(
                instructions@.subrange(0, i as int),
            ),
            forall|k: int| i <= k < count ==> instructions[k] == scanned.instructions[k],
            forall|k: int|
                0 <= k < i ==> match #[trigger] branch_offset(instructions[k]) {
                    None => branch_offset(scanned.instructions[k]) is None,
                    Some(distance) => {
                        &&& 0 <= k + distance < count
                        &&& branch_offset(scanned.instructions[k]) is Some
                        &&& scanned.addresses[k + distance] == scanned.addresses[k]
                            + branch_offset(scanned.instructions[k]).unwrap()
                    },
                },
        decreases count - i,
    {
        let instruction = instructions[i];
        let ghost before = instructions@;
        proof {
            assert(scanned.addresses[i as int] == addresses[i as int]);
            assert(instruction == scanned.instructions[i as int]);
        }
        match raw_offset(instruction) {
            None => {
                proof {
                    assert(before.subrange(0, i + 1) =~= before.subrange(0, i as int).push(
                        instruction,
                    ));
                }
            },
            Some(offset) => match relocate(&addresses, &table, i, offset) {
                None => {
                    proof {
                        assert(relinked_at(scanned, i as int) is Err);
                        lemma_relinked_error(scanned, i as int, count as int);
                    }
                    return Err(DecodeError::InvalidBranchTarget);
                },
                Some(distance) => {
                    let relinked_instruction = set_offset(instruction, distance);
                    instructions.set(i, relinked_instruction);
                    proof {
                        assert(scanned.addresses[i + distance] == addresses[i + distance]);
                        assert(instructions@.subrange(0, i + 1) =~= before.subrange(
                            0,
                            i as int,
                        ).push(relinked_instruction));
                    }
                },
            },
        }
        i = i + 1;
    }
    proof {
        assert(instructions@.subrange(0, count as int) =~= instructions@);
    }
    Ok(instructions)
}

} // verus!
