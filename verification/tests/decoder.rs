//! The instruction decoder and the builders of instructions.

use rusty_java::bytes::{i16_at, i32_at, i8_at, u16_at, u32_at, u64_at, u8_at};
use rusty_java::class::decode_instructions;
use rusty_java::decode::{decode_at, DecodeError};
use rusty_java::instructions::{
    ArrayLoadStoreType, ArrayType, Condition, EqCondition, Instruction, IntegerType, InvokeKind,
    LoadStoreType, NumberType, OrdCondition, ReturnType,
};

#[test]
fn big_endian_readers() {
    let bytes = [0x12, 0x34, 0x56, 0x78, 0x9a, 0xbc, 0xde, 0xf0, 0xff];
    assert_eq!(u8_at(&bytes, 0), Some(0x12));
    assert_eq!(u8_at(&bytes, 9), None);
    assert_eq!(i8_at(&bytes, 8), Some(-1));
    assert_eq!(i8_at(&bytes, 0), Some(0x12));
    assert_eq!(u16_at(&bytes, 0), Some(0x1234));
    assert_eq!(u16_at(&bytes, 7), Some(0xf0ff));
    assert_eq!(u16_at(&bytes, 8), None);
    assert_eq!(i16_at(&bytes, 4), Some(0x9abcu16 as i16));
    assert_eq!(i16_at(&bytes, 0), Some(0x1234));
    assert_eq!(u32_at(&bytes, 1), Some(0x3456_789a));
    assert_eq!(u32_at(&bytes, 6), None);
    assert_eq!(i32_at(&bytes, 4), Some(0x9abc_def0u32 as i32));
    assert_eq!(i32_at(&bytes, 5), Some(0xbcde_f0ffu32 as i32));
    assert_eq!(u64_at(&bytes, 0), Some(0x1234_5678_9abc_def0));
    assert_eq!(u64_at(&bytes, 1), Some(0x3456_789a_bcde_f0ff));
    assert_eq!(u64_at(&bytes, 2), None);
    assert_eq!(u64_at(&bytes, usize::MAX), None);
}

#[test]
fn builders_make_the_instruction_they_name() {
    assert_eq!(
        Instruction::iconst(-1),
        Instruction::const_ { data_type: NumberType::Int, value: -1 }
    );
    assert_eq!(
        Instruction::lconst(1),
        Instruction::const_ { data_type: NumberType::Long, value: 1 }
    );
    assert_eq!(
        Instruction::fconst(2),
        Instruction::const_ { data_type: NumberType::Float, value: 2 }
    );
    assert_eq!(
        Instruction::dconst(0),
        Instruction::const_ { data_type: NumberType::Double, value: 0 }
    );
    assert_eq!(Instruction::bipush(-5), Instruction::bipush { value: -5 });
    assert_eq!(Instruction::sipush(300), Instruction::sipush { value: 300 });
    assert_eq!(Instruction::ldc(7), Instruction::ldc { index: 7 });
    assert_eq!(Instruction::ldc2(8), Instruction::ldc2 { index: 8 });
    assert_eq!(
        Instruction::iload(1),
        Instruction::load { data_type: LoadStoreType::Int, index: 1 }
    );
    assert_eq!(
        Instruction::lload(2),
        Instruction::load { data_type: LoadStoreType::Long, index: 2 }
    );
    assert_eq!(
        Instruction::fload(3),
        Instruction::load { data_type: LoadStoreType::Float, index: 3 }
    );
    assert_eq!(
        Instruction::dload(4),
        Instruction::load { data_type: LoadStoreType::Double, index: 4 }
    );
    assert_eq!(
        Instruction::aload(5),
        Instruction::load { data_type: LoadStoreType::Reference, index: 5 }
    );
    assert_eq!(
        Instruction::istore(1),
        Instruction::store { data_type: LoadStoreType::Int, index: 1 }
    );
    assert_eq!(
        Instruction::lstore(2),
        Instruction::store { data_type: LoadStoreType::Long, index: 2 }
    );
    assert_eq!(
        Instruction::fstore(3),
        Instruction::store { data_type: LoadStoreType::Float, index: 3 }
    );
    assert_eq!(
        Instruction::dstore(4),
        Instruction::store { data_type: LoadStoreType::Double, index: 4 }
    );
    assert_eq!(
        Instruction::astore(5),
        Instruction::store { data_type: LoadStoreType::Reference, index: 5 }
    );
    assert_eq!(
        Instruction::arrayload(ArrayLoadStoreType::Char),
        Instruction::arrayload { data_type: ArrayLoadStoreType::Char }
    );
    assert_eq!(
        Instruction::arraystore(ArrayLoadStoreType::Byte),
        Instruction::arraystore { data_type: ArrayLoadStoreType::Byte }
    );
    assert_eq!(Instruction::add(NumberType::Int), Instruction::add { data_type: NumberType::Int });
    assert_eq!(Instruction::sub(NumberType::Long), Instruction::sub { data_type: NumberType::Long });
    assert_eq!(
        Instruction::mul(NumberType::Float),
        Instruction::mul { data_type: NumberType::Float }
    );
    assert_eq!(
        Instruction::div(NumberType::Double),
        Instruction::div { data_type: NumberType::Double }
    );
    assert_eq!(Instruction::rem(NumberType::Int), Instruction::rem { data_type: NumberType::Int });
    assert_eq!(Instruction::neg(NumberType::Int), Instruction::neg { data_type: NumberType::Int });
    assert_eq!(Instruction::shl(IntegerType::Int), Instruction::shl { data_type: IntegerType::Int });
    assert_eq!(
        Instruction::shr(IntegerType::Long),
        Instruction::shr { data_type: IntegerType::Long }
    );
    assert_eq!(
        Instruction::ushr(IntegerType::Int),
        Instruction::ushr { data_type: IntegerType::Int }
    );
    assert_eq!(Instruction::and(IntegerType::Int), Instruction::and { data_type: IntegerType::Int });
    assert_eq!(Instruction::or(IntegerType::Long), Instruction::or { data_type: IntegerType::Long });
    assert_eq!(Instruction::xor(IntegerType::Int), Instruction::xor { data_type: IntegerType::Int });
    assert_eq!(Instruction::inc(2, -3), Instruction::inc { index: 2, value: -3 });
    assert_eq!(
        Instruction::fcmp(OrdCondition::Lt),
        Instruction::fcmp { condition: OrdCondition::Lt }
    );
    assert_eq!(
        Instruction::dcmp(OrdCondition::Gt),
        Instruction::dcmp { condition: OrdCondition::Gt }
    );
    assert_eq!(
        Instruction::if_(Condition::Le, -4),
        Instruction::if_ { condition: Condition::Le, branch: -4 }
    );
    assert_eq!(
        Instruction::if_icmp(Condition::Ge, 9),
        Instruction::if_icmp { condition: Condition::Ge, branch: 9 }
    );
    assert_eq!(
        Instruction::if_acmp(EqCondition::Ne, 2),
        Instruction::if_acmp { condition: EqCondition::Ne, branch: 2 }
    );
    assert_eq!(Instruction::goto(-70000), Instruction::goto { branch: -70000 });
    assert_eq!(Instruction::jsr(5), Instruction::jsr { branch: 5 });
    assert_eq!(Instruction::ret(6), Instruction::ret { index: 6 });
    assert_eq!(
        Instruction::return_(ReturnType::Reference),
        Instruction::return_ { data_type: ReturnType::Reference }
    );
    assert_eq!(
        Instruction::multianewarray(3, 2),
        Instruction::multianewarray { index: 3, dimensions: 2 }
    );
    assert_eq!(Instruction::getfield(1), Instruction::getfield { index: 1 });
    assert_eq!(Instruction::putfield(2), Instruction::putfield { index: 2 });
    assert_eq!(Instruction::getstatic(3), Instruction::getstatic { index: 3 });
    assert_eq!(Instruction::putstatic(4), Instruction::putstatic { index: 4 });
    assert_eq!(
        Instruction::invoke(InvokeKind::Special, 5),
        Instruction::invoke { kind: InvokeKind::Special, index: 5 }
    );
    assert_eq!(Instruction::new(6), Instruction::new { index: 6 });
    assert_eq!(
        Instruction::newarray(ArrayType::Long),
        Instruction::newarray { atype: ArrayType::Long }
    );
    assert_eq!(Instruction::anewarray(7), Instruction::anewarray { index: 7 });
    assert_eq!(Instruction::checkcast(8), Instruction::checkcast { index: 8 });
    assert_eq!(Instruction::instanceof(9), Instruction::instanceof { index: 9 });
    assert_eq!(Instruction::ifnull(10), Instruction::ifnull { branch: 10 });
    assert_eq!(Instruction::ifnonnull(11), Instruction::ifnonnull { branch: 11 });
}

#[test]
fn array_type_tags() {
    let all = [
        (4, ArrayType::Boolean),
        (5, ArrayType::Char),
        (6, ArrayType::Float),
        (7, ArrayType::Double),
        (8, ArrayType::Byte),
        (9, ArrayType::Short),
        (10, ArrayType::Int),
        (11, ArrayType::Long),
    ];
    for (tag, atype) in all {
        assert_eq!(ArrayType::from_repr(tag), Some(atype));
        assert_eq!(atype.repr(), tag);
    }
    assert_eq!(ArrayType::from_repr(3), None);
    assert_eq!(ArrayType::from_repr(12), None);
    assert_eq!(ArrayType::from_repr(0), None);
}

#[test]
fn decodes_every_operand_shape() {
    let code = [
        0x00, // nop
        0x02, // iconst_m1
        0x10, 0x80, // bipush -128
        0x11, 0x01, 0x2c, // sipush 300
        0x12, 0xff, // ldc 255
        0x13, 0x01, 0x00, // ldc_w 256
        0x14, 0x01, 0x01, // ldc2_w 257
        0x15, 9, // iload 9
        0x2d, // aload_3
        0x2e, // iaload
        0x3a, 7, // astore 7
        0x4f, // iastore
        0x84, 3, 0xff, // iinc 3 -1
        0x94, // lcmp
        0x96, // fcmpg
        0xb9, 0x00, 0x05, 2, 0, // invokeinterface 5, 2
        0xba, 0x00, 0x06, 0, 0, // invokedynamic 6
        0xbc, 5, // newarray char
        0xc5, 0x00, 0x09, 3, // multianewarray 9, 3
        0xb1, // return
    ];
    assert_eq!(
        decode_instructions(&code).unwrap(),
        vec![
            Instruction::nop,
            Instruction::iconst(-1),
            Instruction::bipush(-128),
            Instruction::sipush(300),
            Instruction::ldc(255),
            Instruction::ldc(256),
            Instruction::ldc2(257),
            Instruction::iload(9),
            Instruction::aload(3),
            Instruction::arrayload(ArrayLoadStoreType::Int),
            Instruction::astore(7),
            Instruction::arraystore(ArrayLoadStoreType::Int),
            Instruction::inc(3, -1),
            Instruction::lcmp,
            Instruction::fcmp(OrdCondition::Gt),
            Instruction::invoke(InvokeKind::Interface { count: 2 }, 5),
            Instruction::invoke(InvokeKind::Dynamic, 6),
            Instruction::newarray(ArrayType::Char),
            Instruction::multianewarray(9, 3),
            Instruction::return_(ReturnType::Void),
        ]
    );
    assert_eq!(decode_instructions(&[]).unwrap(), vec![]);
}

#[test]
fn branches_count_instructions_not_bytes() {
    let code = [
        0x03, // 0: iconst_0          #0
        0x3c, // 1: istore_1          #1
        0x1b, // 2: iload_1           #2
        0x10, 10, // 3: bipush 10     #3
        0xa2, 0x00, 0x0d, // 5: if_icmpge +13 -> 18   #4
        0x84, 1, 1, // 8: iinc        #5
        0x1b, // 11: iload_1          #6
        0x99, 0xff, 0xf6, // 12: ifeq -10 -> 2        #7
        0xc6, 0x00, 0x03, // 15: ifnull +3 -> 18      #8
        0xa7, 0xff, 0xf0, // 18: goto -16 -> 2        #9
        0xb1, // 21: return           #10
    ];
    let decoded = decode_instructions(&code).unwrap();
    assert_eq!(decoded.len(), 11);
    assert_eq!(decoded[4], Instruction::if_icmp(Condition::Ge, 5)); // #4 -> #9
    assert_eq!(decoded[7], Instruction::if_(Condition::Eq, -5)); // #7 -> #2
    assert_eq!(decoded[8], Instruction::ifnull(1)); // #8 -> #9
    assert_eq!(decoded[9], Instruction::goto(-7)); // #9 -> #2
    // Every branch lands inside the method.
    for (i, instruction) in decoded.iter().enumerate() {
        let branch = match *instruction {
            Instruction::if_ { branch, .. } => Some(branch as i64),
            Instruction::if_icmp { branch, .. } => Some(branch as i64),
            Instruction::ifnull { branch } => Some(branch as i64),
            Instruction::goto { branch } => Some(branch as i64),
            _ => None,
        };
        if let Some(branch) = branch {
            let target = i as i64 + branch;
            assert!(0 <= target && target < decoded.len() as i64);
        }
    }
}

#[test]
fn wide_branches_and_the_other_branching_instructions() {
    let code = [
        0xc8, 0x00, 0x00, 0x00, 0x0d, // 0: goto_w +13 -> 13      #0
        0xa8, 0x00, 0x08, // 5: jsr +8 -> 13                      #1
        0xa5, 0x00, 0x05, // 8: if_acmpeq +5 -> 13                #2
        0x00, 0x00, // 11, 12: nop nop                            #3 #4
        0xc7, 0xff, 0xf3, // 13: ifnonnull -13 -> 0               #5
        0xc9, 0xff, 0xff, 0xff, 0xf0, // 16: jsr_w -16 -> 0       #6
        0xa9, 4, // 21: ret 4                                     #7
    ];
    assert_eq!(
        decode_instructions(&code).unwrap(),
        vec![
            Instruction::goto(5),
            Instruction::jsr(4),
            Instruction::if_acmp(EqCondition::Eq, 3),
            Instruction::nop,
            Instruction::nop,
            Instruction::ifnonnull(-5),
            Instruction::jsr(-6),
            Instruction::ret(4),
        ]
    );
}

#[test]
fn branch_targets_must_be_instructions() {
    // Into the operand of bipush.
    assert_eq!(
        decode_instructions(&[0xa7, 0x00, 0x04, 0x10, 0x07, 0xb1]),
        Err(DecodeError::InvalidBranchTarget)
    );
    // Before the start.
    assert_eq!(
        decode_instructions(&[0xa7, 0xff, 0xff, 0xb1]),
        Err(DecodeError::InvalidBranchTarget)
    );
    // Just past the end.
    assert_eq!(
        decode_instructions(&[0xa7, 0x00, 0x04, 0xb1]),
        Err(DecodeError::InvalidBranchTarget)
    );
    // Far past the end.
    assert_eq!(
        decode_instructions(&[0xc8, 0x7f, 0xff, 0xff, 0xff]),
        Err(DecodeError::InvalidBranchTarget)
    );
    // On itself.
    assert_eq!(decode_instructions(&[0xa7, 0x00, 0x00]), Ok(vec![Instruction::goto(0)]));
}

#[test]
fn decoder_reports_what_is_wrong() {
    assert_eq!(decode_instructions(&[0xcb]), Err(DecodeError::UnknownOpcode(0xcb)));
    assert_eq!(decode_instructions(&[0x00, 0xfd]), Err(DecodeError::UnknownOpcode(0xfd)));
    assert_eq!(decode_instructions(&[0xc4, 0x15, 0, 1]), Err(DecodeError::UnexpectedOpcode(0xc4)));
    assert_eq!(decode_instructions(&[0xca]), Err(DecodeError::UnexpectedOpcode(0xca)));
    assert_eq!(decode_instructions(&[0xfe]), Err(DecodeError::UnexpectedOpcode(0xfe)));
    assert_eq!(decode_instructions(&[0xff]), Err(DecodeError::UnexpectedOpcode(0xff)));
    assert_eq!(decode_instructions(&[0x10]), Err(DecodeError::TruncatedCode));
    assert_eq!(decode_instructions(&[0x11, 0x00]), Err(DecodeError::TruncatedCode));
    assert_eq!(decode_instructions(&[0xb6, 0x00]), Err(DecodeError::TruncatedCode));
    assert_eq!(decode_instructions(&[0x99, 0x00]), Err(DecodeError::TruncatedCode));
    assert_eq!(decode_instructions(&[0xc8, 0, 0, 0]), Err(DecodeError::TruncatedCode));
    assert_eq!(decode_instructions(&[0xb9, 0, 1, 0, 0]), Err(DecodeError::ZeroInterfaceCount));
    assert_eq!(decode_instructions(&[0xb9, 0, 1, 1, 1]), Err(DecodeError::InvalidReservedByte));
    assert_eq!(decode_instructions(&[0xb9, 0, 1, 1]), Err(DecodeError::TruncatedCode));
    assert_eq!(decode_instructions(&[0xba, 0, 1, 0, 1]), Err(DecodeError::InvalidReservedByte));
    assert_eq!(decode_instructions(&[0xbc, 3]), Err(DecodeError::UnknownArrayType));
    assert_eq!(decode_instructions(&[0xbc, 12]), Err(DecodeError::UnknownArrayType));
    // The first error in the order of the addresses is the one reported.
    assert_eq!(decode_instructions(&[0xcb, 0x10]), Err(DecodeError::UnknownOpcode(0xcb)));
}

#[test]
fn switches_are_stepped_over() {
    // tableswitch at 1: padding to 4, default, low = 1, high = 2, two offsets.
    let mut code = vec![0x00, 0xaa, 0, 0];
    code.extend_from_slice(&[0, 0, 0, 0]); // default
    code.extend_from_slice(&1i32.to_be_bytes());
    code.extend_from_slice(&2i32.to_be_bytes());
    code.extend_from_slice(&[0; 8]);
    code.push(0xb1);
    assert_eq!(
        decode_instructions(&code).unwrap(),
        vec![Instruction::nop, Instruction::tableswitch, Instruction::return_(ReturnType::Void)]
    );
    assert_eq!(decode_at(&code, 1), Ok((Instruction::tableswitch, 24)));

    // lookupswitch at 0: three bytes of padding, default, one pair.
    let mut code = vec![0xab, 0, 0, 0];
    code.extend_from_slice(&[0, 0, 0, 0]);
    code.extend_from_slice(&1i32.to_be_bytes());
    code.extend_from_slice(&[0; 8]);
    code.push(0xb1);
    assert_eq!(
        decode_instructions(&code).unwrap(),
        vec![Instruction::lookupswitch, Instruction::return_(ReturnType::Void)]
    );

    // A table that runs past the end of the code.
    let mut code = vec![0xab, 0, 0, 0];
    code.extend_from_slice(&[0, 0, 0, 0]);
    code.extend_from_slice(&2i32.to_be_bytes());
    code.extend_from_slice(&[0; 8]);
    assert_eq!(decode_instructions(&code), Err(DecodeError::TruncatedCode));

    // A negative number of pairs.
    let mut code = vec![0xab, 0, 0, 0];
    code.extend_from_slice(&[0, 0, 0, 0]);
    code.extend_from_slice(&(-1i32).to_be_bytes());
    assert_eq!(decode_instructions(&code), Err(DecodeError::InvalidSwitch));

    // high below low - 1.
    let mut code = vec![0xaa, 0, 0, 0];
    code.extend_from_slice(&[0, 0, 0, 0]);
    code.extend_from_slice(&5i32.to_be_bytes());
    code.extend_from_slice(&3i32.to_be_bytes());
    assert_eq!(decode_instructions(&code), Err(DecodeError::InvalidSwitch));

    // The header itself is cut short.
    assert_eq!(decode_instructions(&[0xaa, 0, 0, 0, 0, 0]), Err(DecodeError::TruncatedCode));
}
