//! Arithmetic, frames, the heap and the rendering of values.

use rusty_java::arith::{
    int_add, int_div, int_mul, int_neg, int_rem, int_sub, int_to_boolean, int_to_byte, int_to_char,
    int_to_short, long_add, long_div, long_mul, long_neg, long_rem, long_sub,
};
use rusty_java::call_frame::{CallFrame, Flow, JvmValue};
use rusty_java::class::{Method, MethodBody};
use rusty_java::class_file::MethodAccessFlags;
use rusty_java::descriptor::{parse_field_descriptor, parse_method_descriptor};
use rusty_java::error::{ExecError, Feature};
use rusty_java::heap::{Heap, HeapObject};
use rusty_java::instructions::{
    ArrayLoadStoreType, ArrayType, Condition, Instruction, LoadStoreType, NumberType, ReturnType,
};
use rusty_java::render::{push_decimal, render};
use rusty_java::value::default_value;
use rusty_java::vm::time_value;

#[test]
fn int_arithmetic_wraps() {
    assert_eq!(int_add(i32::MAX, 1), i32::MIN);
    assert_eq!(int_add(i32::MIN, -1), i32::MAX);
    assert_eq!(int_add(2, 3), 5);
    assert_eq!(int_sub(i32::MIN, 1), i32::MAX);
    assert_eq!(int_sub(3, 5), -2);
    assert_eq!(int_mul(65536, 65536), 0);
    assert_eq!(int_mul(i32::MAX, 2), -2);
    assert_eq!(int_mul(-7, 6), -42);
    assert_eq!(int_neg(5), -5);
    assert_eq!(int_neg(i32::MIN), i32::MIN);
    assert_eq!(int_neg(int_neg(i32::MIN)), i32::MIN);
    assert_eq!(int_neg(int_neg(12345)), 12345);
}

#[test]
fn int_arithmetic_laws_on_samples() {
    let samples = [0, 1, -1, 7, -13, 65535, 65537, i32::MAX, i32::MIN, 0x1234_5678];
    for &a in &samples {
        assert_eq!(int_neg(int_neg(a)), a);
        for &b in &samples {
            assert_eq!(int_add(a, b), int_add(b, a));
            assert_eq!(int_mul(a, b), int_mul(b, a));
            assert_eq!(int_add(a, b), a.wrapping_add(b));
            assert_eq!(int_sub(a, b), a.wrapping_sub(b));
            assert_eq!(int_mul(a, b), a.wrapping_mul(b));
            for &c in &samples {
                assert_eq!(int_add(int_add(a, b), c), int_add(a, int_add(b, c)));
                assert_eq!(int_mul(int_mul(a, b), c), int_mul(a, int_mul(b, c)));
            }
        }
    }
}

#[test]
fn int_division_truncates_toward_zero() {
    assert_eq!(int_div(7, 2), Some(3));
    assert_eq!(int_div(-7, 2), Some(-3));
    assert_eq!(int_div(7, -2), Some(-3));
    assert_eq!(int_div(-7, -2), Some(3));
    assert_eq!(int_div(0, 5), Some(0));
    assert_eq!(int_div(i32::MIN, -1), Some(i32::MIN));
    assert_eq!(int_div(i32::MIN, 1), Some(i32::MIN));
    assert_eq!(int_div(1, 0), None);
    assert_eq!(int_rem(7, 3), Some(1));
    assert_eq!(int_rem(-7, 3), Some(-1));
    assert_eq!(int_rem(7, -3), Some(1));
    assert_eq!(int_rem(-7, -3), Some(-1));
    assert_eq!(int_rem(i32::MIN, -1), Some(0));
    assert_eq!(int_rem(0, 9), Some(0));
    assert_eq!(int_rem(5, 0), None);
}

fn method(locals: usize, flags: u16, code: Vec<Instruction>) -> Method {
    Method {
        descriptor: parse_method_descriptor("()V").unwrap(),
        access_flags: MethodAccessFlags::from_bits_truncate(flags),
        body: Some(MethodBody { locals, stack_size: 4, code }),
    }
}

fn frame(locals: usize, args: &[JvmValue]) -> CallFrame {
    CallFrame::new(3, 5, &method(locals, 0x0008, vec![]), args).unwrap()
}

#[test]
fn new_frame_holds_its_arguments() {
    let frame = frame(3, &[JvmValue::Int(7), JvmValue::Reference(2)]);
    assert_eq!(frame.class, 3);
    assert_eq!(frame.method, 5);
    assert_eq!(frame.pc, 0);
    assert_eq!(frame.locals, vec![Some(JvmValue::Int(7)), Some(JvmValue::Reference(2)), None]);
    assert!(frame.operand_stack.is_empty());
}

#[test]
fn new_frame_reports_what_is_wrong() {
    let native = Method {
        descriptor: parse_method_descriptor("()V").unwrap(),
        access_flags: MethodAccessFlags::from_bits_truncate(0x0100),
        body: None,
    };
    assert_eq!(CallFrame::new(0, 0, &native, &[]).unwrap_err(), ExecError::MissingMethodBody);
    let synchronized = method(1, 0x0020, vec![]);
    assert_eq!(CallFrame::new(0, 0, &synchronized, &[]).unwrap_err(), ExecError::Unsupported(Feature::Synchronized));
    let narrow = method(1, 0, vec![]);
    let args = [JvmValue::Int(1), JvmValue::Int(2)];
    assert_eq!(CallFrame::new(0, 0, &narrow, &args).unwrap_err(), ExecError::TooManyArguments);
}

#[test]
fn constant_stored_and_loaded_is_the_constant() {
    for k in [-1i8, 0, 1, 5] {
        for i in [0u8, 2] {
            let mut frame = frame(3, &[]);
            frame.push(JvmValue::Long(9));
            assert_eq!(frame.execute(Instruction::iconst(k)), Ok(Flow::Next));
            assert_eq!(frame.execute(Instruction::istore(i)), Ok(Flow::Next));
            assert_eq!(frame.execute(Instruction::iload(i)), Ok(Flow::Next));
            assert_eq!(frame.operand_stack, vec![JvmValue::Long(9), JvmValue::Int(k as i32)]);
        }
    }
}

#[test]
fn loads_and_stores() {
    let mut frame = frame(4, &[JvmValue::Byte(-3), JvmValue::StringConst { class: 1, index: 9 }]);
    // An empty local loads as zero, or as null.
    assert_eq!(frame.execute(Instruction::iload(3)), Ok(Flow::Next));
    assert_eq!(frame.execute(Instruction::aload(3)), Ok(Flow::Next));
    assert_eq!(frame.execute(Instruction::lload(3)), Ok(Flow::Next));
    assert_eq!(frame.execute(Instruction::fload(3)), Ok(Flow::Next));
    assert_eq!(frame.execute(Instruction::dload(3)), Ok(Flow::Next));
    assert_eq!(
        frame.operand_stack,
        vec![
            JvmValue::Int(0),
            JvmValue::Reference(0),
            JvmValue::Long(0),
            JvmValue::Float(0),
            JvmValue::Double(0)
        ]
    );
    frame.operand_stack.clear();
    // A byte loads as an int; a string constant loads as itself.
    assert_eq!(frame.execute(Instruction::iload(0)), Ok(Flow::Next));
    assert_eq!(frame.execute(Instruction::aload(1)), Ok(Flow::Next));
    assert_eq!(
        frame.operand_stack,
        vec![JvmValue::Int(-3), JvmValue::StringConst { class: 1, index: 9 }]
    );
    assert_eq!(frame.execute(Instruction::astore(2)), Ok(Flow::Next));
    assert_eq!(frame.locals[2], Some(JvmValue::StringConst { class: 1, index: 9 }));
    // Kinds must match.
    assert_eq!(frame.execute(Instruction::astore(2)), Err(ExecError::TypeMismatch));
    assert_eq!(frame.execute(Instruction::iload(1)), Err(ExecError::TypeMismatch));
    assert_eq!(frame.execute(Instruction::aload(0)), Err(ExecError::TypeMismatch));
    assert_eq!(frame.execute(Instruction::iload(4)), Err(ExecError::LocalOutOfRange));
    frame.push(JvmValue::Int(1));
    assert_eq!(frame.execute(Instruction::istore(200)), Err(ExecError::LocalOutOfRange));
    assert_eq!(frame.execute(Instruction::istore(0)), Err(ExecError::StackUnderflow));
}

#[test]
fn constants_and_pushes() {
    let mut frame = frame(1, &[]);
    for instruction in [
        Instruction::iconst(-1),
        Instruction::lconst(1),
        Instruction::fconst(0),
        Instruction::fconst(1),
        Instruction::fconst(2),
        Instruction::dconst(0),
        Instruction::dconst(1),
        Instruction::bipush(-128),
        Instruction::sipush(-32768),
        Instruction::aconst_null,
        Instruction::dup,
    ] {
        assert_eq!(frame.execute(instruction), Ok(Flow::Next));
    }
    assert_eq!(
        frame.operand_stack,
        vec![
            JvmValue::Int(-1),
            JvmValue::Long(1),
            JvmValue::Float(0.0f32.to_bits()),
            JvmValue::Float(1.0f32.to_bits()),
            JvmValue::Float(2.0f32.to_bits()),
            JvmValue::Double(0.0f64.to_bits()),
            JvmValue::Double(1.0f64.to_bits()),
            JvmValue::Int(-128),
            JvmValue::Int(-32768),
            JvmValue::Reference(0),
            JvmValue::Reference(0),
        ]
    );
    let odd = Instruction::const_ { data_type: NumberType::Float, value: 3 };
    assert_eq!(frame.execute(odd), Err(ExecError::Unsupported(Feature::Instruction(odd))));
    let mut empty = self::frame(1, &[]);
    assert_eq!(empty.execute(Instruction::dup), Err(ExecError::StackUnderflow));
}

#[test]
fn binary_instructions_bind_the_top_as_second_operand() {
    let run = |instruction: Instruction, a: i32, b: i32| {
        let mut frame = frame(1, &[]);
        frame.push(JvmValue::Int(a));
        frame.push(JvmValue::Int(b));
        frame.execute(instruction).map(|_| frame.operand_stack.clone())
    };
    assert_eq!(run(Instruction::add(NumberType::Int), 2, 3), Ok(vec![JvmValue::Int(5)]));
    assert_eq!(
        run(Instruction::add(NumberType::Int), i32::MAX, 1),
        Ok(vec![JvmValue::Int(i32::MIN)])
    );
    assert_eq!(run(Instruction::sub(NumberType::Int), 2, 3), Ok(vec![JvmValue::Int(-1)]));
    assert_eq!(run(Instruction::mul(NumberType::Int), -4, 3), Ok(vec![JvmValue::Int(-12)]));
    assert_eq!(run(Instruction::div(NumberType::Int), 9, 2), Ok(vec![JvmValue::Int(4)]));
    assert_eq!(run(Instruction::rem(NumberType::Int), 9, 2), Ok(vec![JvmValue::Int(1)]));
    assert_eq!(run(Instruction::div(NumberType::Int), 9, 0), Err(ExecError::DivisionByZero));
    assert_eq!(run(Instruction::rem(NumberType::Int), 9, 0), Err(ExecError::DivisionByZero));
    let long_add = Instruction::add(NumberType::Long);
    assert_eq!(run(long_add, 1, 2), Err(ExecError::TypeMismatch));
    let float_add = Instruction::add(NumberType::Float);
    assert_eq!(run(float_add, 1, 2), Err(ExecError::Unsupported(Feature::Instruction(float_add))));

    let mut frame = frame(1, &[]);
    frame.push(JvmValue::Int(1));
    assert_eq!(frame.execute(Instruction::add(NumberType::Int)), Err(ExecError::StackUnderflow));
    frame.push(JvmValue::Long(1));
    frame.push(JvmValue::Int(1));
    assert_eq!(frame.execute(Instruction::add(NumberType::Int)), Err(ExecError::TypeMismatch));

    let mut frame = self::frame(1, &[]);
    frame.push(JvmValue::Int(i32::MIN));
    assert_eq!(frame.execute(Instruction::neg(NumberType::Int)), Ok(Flow::Next));
    assert_eq!(frame.operand_stack, vec![JvmValue::Int(i32::MIN)]);
    let float_neg = Instruction::neg(NumberType::Float);
    assert_eq!(frame.execute(float_neg), Err(ExecError::Unsupported(Feature::Instruction(float_neg))));
}

#[test]
fn conditional_branches() {
    let conditions = [
        (Condition::Eq, [false, true, false]),
        (Condition::Ne, [true, false, true]),
        (Condition::Lt, [true, false, false]),
        (Condition::Le, [true, true, false]),
        (Condition::Gt, [false, false, true]),
        (Condition::Ge, [false, true, true]),
    ];
    for (condition, expected) in conditions {
        for (value, taken) in [-1, 0, 1].into_iter().zip(expected) {
            let flow = if taken { Flow::Branch(-9) } else { Flow::Next };
            let mut frame = frame(1, &[]);
            frame.push(JvmValue::Int(value));
            assert_eq!(frame.execute(Instruction::if_(condition, -9)), Ok(flow));
            assert!(frame.operand_stack.is_empty());

            // value <cond> 0, with the zero on top.
            let mut frame = self::frame(1, &[]);
            frame.push(JvmValue::Int(value));
            frame.push(JvmValue::Int(0));
            assert_eq!(frame.execute(Instruction::if_icmp(condition, -9)), Ok(flow));
            assert!(frame.operand_stack.is_empty());
        }
    }
    let mut frame = frame(1, &[]);
    assert_eq!(frame.execute(Instruction::goto(70000)), Ok(Flow::Branch(70000)));
    frame.push(JvmValue::Reference(0));
    assert_eq!(
        frame.execute(Instruction::if_(Condition::Eq, 1)),
        Err(ExecError::TypeMismatch)
    );
}

#[test]
fn increment_adds_in_place() {
    let mut frame = frame(3, &[JvmValue::Int(i32::MAX), JvmValue::Long(1)]);
    assert_eq!(frame.execute(Instruction::inc(0, 1)), Ok(Flow::Next));
    assert_eq!(frame.locals[0], Some(JvmValue::Int(i32::MIN)));
    assert_eq!(frame.execute(Instruction::inc(0, -128)), Ok(Flow::Next));
    assert_eq!(frame.locals[0], Some(JvmValue::Int(i32::MIN.wrapping_sub(128))));
    assert_eq!(frame.execute(Instruction::inc(1, 1)), Err(ExecError::TypeMismatch));
    assert_eq!(frame.execute(Instruction::inc(2, 1)), Err(ExecError::TypeMismatch));
    assert_eq!(frame.execute(Instruction::inc(3, 1)), Err(ExecError::LocalOutOfRange));
}

#[test]
fn returns_take_a_value_of_their_type() {
    let mut frame = frame(1, &[]);
    frame.push(JvmValue::Int(4));
    assert_eq!(frame.execute(Instruction::return_(ReturnType::Void)), Ok(Flow::Return(None)));
    assert_eq!(frame.operand_stack, vec![JvmValue::Int(4)]);
    assert_eq!(
        frame.execute(Instruction::return_(ReturnType::Int)),
        Ok(Flow::Return(Some(JvmValue::Int(4))))
    );
    assert!(frame.operand_stack.is_empty());
    assert_eq!(
        frame.execute(Instruction::return_(ReturnType::Int)),
        Err(ExecError::StackUnderflow)
    );
    frame.push(JvmValue::Int(4));
    assert_eq!(
        frame.execute(Instruction::return_(ReturnType::Long)),
        Err(ExecError::TypeMismatch)
    );
    frame.push(JvmValue::StringConst { class: 0, index: 1 });
    assert_eq!(
        frame.execute(Instruction::return_(ReturnType::Reference)),
        Ok(Flow::Return(Some(JvmValue::StringConst { class: 0, index: 1 })))
    );
}

#[test]
fn machine_instructions_leave_the_frame_alone() {
    let mut frame = frame(1, &[]);
    frame.push(JvmValue::Int(4));
    for instruction in [
        Instruction::ldc(1),
        Instruction::new(1),
        Instruction::newarray(rusty_java::instructions::ArrayType::Int),
        Instruction::arraylength,
        Instruction::arraystore(ArrayLoadStoreType::Int),
        Instruction::getfield(1),
        Instruction::putfield(1),
        Instruction::getstatic(1),
        Instruction::putstatic(1),
        Instruction::invoke(rusty_java::instructions::InvokeKind::Static, 1),
    ] {
        assert_eq!(frame.execute(instruction), Ok(Flow::Machine));
        assert_eq!(frame.operand_stack, vec![JvmValue::Int(4)]);
    }
    for instruction in [Instruction::nop, Instruction::pop, Instruction::athrow, Instruction::lcmp] {
        assert_eq!(frame.execute(instruction), Err(ExecError::Unsupported(Feature::Instruction(instruction))));
    }
    let long_load = Instruction::load { data_type: LoadStoreType::Long, index: 0 };
    assert_eq!(frame.execute(long_load), Ok(Flow::Next));
}

#[test]
fn program_counter_stays_inside_the_method() {
    let mut frame = frame(1, &[]);
    assert_eq!(frame.advance(Flow::Next, 3), Ok(()));
    assert_eq!(frame.pc, 1);
    assert_eq!(frame.advance(Flow::Branch(1), 3), Ok(()));
    assert_eq!(frame.pc, 2);
    assert_eq!(frame.advance(Flow::Branch(-2), 3), Ok(()));
    assert_eq!(frame.pc, 0);
    assert_eq!(frame.advance(Flow::Branch(-1), 3), Err(ExecError::ProgramCounterOverflow));
    assert_eq!(frame.pc, 0);
    assert_eq!(frame.advance(Flow::Branch(3), 3), Err(ExecError::ProgramCounterOverflow));
    assert_eq!(frame.advance(Flow::Branch(i32::MAX), 3), Err(ExecError::ProgramCounterOverflow));
    assert_eq!(frame.advance(Flow::Branch(i32::MIN), 3), Err(ExecError::ProgramCounterOverflow));
    assert_eq!(frame.advance(Flow::Branch(2), 3), Ok(()));
    assert_eq!(frame.advance(Flow::Next, 3), Err(ExecError::ProgramCounterOverflow));
    assert_eq!(frame.pc, 2);
}

#[test]
fn new_array_reports_its_length() {
    let mut heap = Heap::new();
    for n in [0, 1, 3, 1000] {
        let reference = heap.new_array(ArrayType::Int, n).unwrap();
        assert_ne!(reference, 0);
        assert_eq!(heap.array_length(reference), Ok(n));
    }
    assert_eq!(heap.new_array(ArrayType::Int, -1), Err(ExecError::NegativeArraySize));
    assert_eq!(heap.array_length(0), Err(ExecError::NullReference));
    assert_eq!(heap.array_length(99), Err(ExecError::InvalidReference));
    let object = heap.new_object(0, vec![]).unwrap();
    assert_eq!(heap.array_length(object), Err(ExecError::NotAnArray));
}

#[test]
fn array_elements_hold_what_was_stored() {
    let mut heap = Heap::new();
    let a = heap.new_array(ArrayType::Int, 3).unwrap();
    let b = heap.new_array(ArrayType::Int, 3).unwrap();
    assert_eq!(heap.array_store(a, ArrayLoadStoreType::Int, 2, JvmValue::Int(30)), Ok(()));
    assert_eq!(heap.array_store(a, ArrayLoadStoreType::Int, 0, JvmValue::Int(10)), Ok(()));
    match heap.get(a).unwrap() {
        HeapObject::Array { elements, .. } => assert_eq!(
            elements,
            &vec![JvmValue::Int(10), JvmValue::Int(0), JvmValue::Int(30)]
        ),
        other => panic!("unexpected: {:?}", other),
    }
    match heap.get(b).unwrap() {
        HeapObject::Array { elements, .. } => assert_eq!(elements, &vec![JvmValue::Int(0); 3]),
        other => panic!("unexpected: {:?}", other),
    }
    assert_eq!(
        heap.array_store(a, ArrayLoadStoreType::Int, 3, JvmValue::Int(1)),
        Err(ExecError::ArrayIndexOutOfBounds)
    );
    assert_eq!(
        heap.array_store(a, ArrayLoadStoreType::Int, -1, JvmValue::Int(1)),
        Err(ExecError::ArrayIndexOutOfBounds)
    );
    assert_eq!(
        heap.array_store(a, ArrayLoadStoreType::Byte, 0, JvmValue::Int(1)),
        Err(ExecError::ArrayTypeMismatch)
    );
    assert_eq!(
        heap.array_store(a, ArrayLoadStoreType::Int, 0, JvmValue::Long(1)),
        Err(ExecError::TypeMismatch)
    );
    assert_eq!(
        heap.array_store(0, ArrayLoadStoreType::Int, 0, JvmValue::Int(1)),
        Err(ExecError::NullReference)
    );
}

#[test]
fn fields_hold_the_last_write() {
    let mut heap = Heap::new();
    let a = heap.new_object(4, vec![JvmValue::Int(0), JvmValue::Reference(0)]).unwrap();
    let b = heap.new_object(4, vec![JvmValue::Int(0), JvmValue::Reference(0)]).unwrap();
    assert_ne!(a, b);
    assert_eq!(heap.class_of(a), Ok(4));
    assert_eq!(heap.get_field(a, 0), Ok(JvmValue::Int(0)));
    assert_eq!(heap.put_field(a, 0, JvmValue::Int(7)), Ok(()));
    assert_eq!(heap.put_field(a, 1, JvmValue::Reference(b)), Ok(()));
    assert_eq!(heap.put_field(a, 0, JvmValue::Int(8)), Ok(()));
    assert_eq!(heap.get_field(a, 0), Ok(JvmValue::Int(8)));
    assert_eq!(heap.get_field(a, 1), Ok(JvmValue::Reference(b)));
    assert_eq!(heap.get_field(b, 0), Ok(JvmValue::Int(0)));
    assert_eq!(heap.get_field(b, 1), Ok(JvmValue::Reference(0)));
    assert_eq!(heap.get_field(a, 2), Err(ExecError::NoSuchField));
    assert_eq!(heap.put_field(a, 2, JvmValue::Int(1)), Err(ExecError::NoSuchField));
    assert_eq!(heap.get_field(0, 0), Err(ExecError::NullReference));
    assert_eq!(heap.put_field(9, 0, JvmValue::Int(1)), Err(ExecError::InvalidReference));
    let array = heap.new_array(ArrayType::Int, 1).unwrap();
    assert_eq!(heap.get_field(array, 0), Err(ExecError::NotAnObject));
    assert_eq!(heap.class_of(array), Err(ExecError::NotAnObject));
}

#[test]
fn default_values_by_type() {
    let default = |text: &str| default_value(&parse_field_descriptor(text).unwrap().field_type);
    assert_eq!(default("B"), JvmValue::Byte(0));
    assert_eq!(default("C"), JvmValue::Char(0));
    assert_eq!(default("D"), JvmValue::Double(0));
    assert_eq!(default("F"), JvmValue::Float(0));
    assert_eq!(default("I"), JvmValue::Int(0));
    assert_eq!(default("J"), JvmValue::Long(0));
    assert_eq!(default("S"), JvmValue::Short(0));
    assert_eq!(default("Z"), JvmValue::Boolean(false));
    assert_eq!(default("Lx;"), JvmValue::Reference(0));
    assert_eq!(default("[I"), JvmValue::Reference(0));
}

#[test]
fn decimal_forms() {
    let decimal = |v: i64| {
        let mut out = b"x".to_vec();
        push_decimal(&mut out, v);
        String::from_utf8(out).unwrap()
    };
    assert_eq!(decimal(0), "x0");
    assert_eq!(decimal(7), "x7");
    assert_eq!(decimal(10), "x10");
    assert_eq!(decimal(-1), "x-1");
    assert_eq!(decimal(1234567890), "x1234567890");
    assert_eq!(decimal(i64::MAX), "x9223372036854775807");
    assert_eq!(decimal(i64::MIN), "x-9223372036854775808");
}

#[test]
fn values_as_they_print() {
    let mut heap = Heap::new();
    let empty = heap.new_array(ArrayType::Int, 0).unwrap();
    let array = heap.new_array(ArrayType::Int, 2).unwrap();
    heap.array_store(array, ArrayLoadStoreType::Int, 1, JvmValue::Int(-5)).unwrap();
    let classes = Vec::new();
    let text = |value| render(&classes, &heap, value).map(|b| String::from_utf8(b).unwrap());
    assert_eq!(text(JvmValue::Int(-12)), Ok("-12".to_string()));
    assert_eq!(text(JvmValue::Byte(-128)), Ok("-128".to_string()));
    assert_eq!(text(JvmValue::Short(300)), Ok("300".to_string()));
    assert_eq!(text(JvmValue::Char(65)), Ok("65".to_string()));
    assert_eq!(text(JvmValue::Long(i64::MIN)), Ok("-9223372036854775808".to_string()));
    assert_eq!(text(JvmValue::Reference(0)), Ok("null".to_string()));
    assert_eq!(text(JvmValue::Reference(empty)), Ok("[]".to_string()));
    assert_eq!(text(JvmValue::Reference(array)), Ok("[0, -5]".to_string()));
    assert_eq!(text(JvmValue::Reference(77)), Err(ExecError::InvalidReference));
    assert_eq!(text(JvmValue::Boolean(true)), Ok("true".to_string()));
    assert_eq!(text(JvmValue::Boolean(false)), Ok("false".to_string()));
    assert_eq!(text(JvmValue::Double(0)), Err(ExecError::Unprintable));
    assert_eq!(text(JvmValue::ReturnAddress(1)), Err(ExecError::Unprintable));
    assert_eq!(text(JvmValue::Float(0)), Err(ExecError::Unprintable));
    assert_eq!(
        text(JvmValue::StringConst { class: 0, index: 1 }),
        Err(ExecError::InvalidReference)
    );
}

#[test]
fn clock_readings() {
    assert_eq!(time_value(Some(0)), Ok(JvmValue::Long(0)));
    assert_eq!(time_value(Some(1234)), Ok(JvmValue::Long(1234)));
    assert_eq!(time_value(Some(i64::MAX as u128)), Ok(JvmValue::Long(i64::MAX)));
    assert_eq!(time_value(Some(i64::MAX as u128 + 1)), Err(ExecError::ClockOutOfRange));
    assert_eq!(time_value(None), Err(ExecError::ClockOutOfRange));
}

#[test]
fn long_arithmetic_wraps_and_truncates() {
    assert_eq!(long_add(i64::MAX, 1), i64::MIN);
    assert_eq!(long_sub(i64::MIN, 1), i64::MAX);
    assert_eq!(long_mul(1 << 32, 1 << 32), 0);
    assert_eq!(long_mul(-3, 5), -15);
    assert_eq!(long_neg(i64::MIN), i64::MIN);
    assert_eq!(long_neg(9), -9);
    assert_eq!(long_div(-7, 2), Some(-3));
    assert_eq!(long_div(i64::MIN, -1), Some(i64::MIN));
    assert_eq!(long_div(1, 0), None);
    assert_eq!(long_rem(-7, 2), Some(-1));
    assert_eq!(long_rem(7, -2), Some(1));
    assert_eq!(long_rem(i64::MIN, -1), Some(0));
    assert_eq!(long_rem(1, 0), None);

    let run = |instruction: Instruction, a: i64, b: i64| {
        let mut frame = frame(1, &[]);
        frame.push(JvmValue::Long(a));
        frame.push(JvmValue::Long(b));
        frame.execute(instruction).map(|_| frame.operand_stack.clone())
    };
    assert_eq!(run(Instruction::add(NumberType::Long), i64::MAX, 1), Ok(vec![JvmValue::Long(i64::MIN)]));
    assert_eq!(run(Instruction::sub(NumberType::Long), 2, 3), Ok(vec![JvmValue::Long(-1)]));
    assert_eq!(run(Instruction::mul(NumberType::Long), -4, 3), Ok(vec![JvmValue::Long(-12)]));
    assert_eq!(run(Instruction::div(NumberType::Long), 9, 2), Ok(vec![JvmValue::Long(4)]));
    assert_eq!(run(Instruction::rem(NumberType::Long), 9, 2), Ok(vec![JvmValue::Long(1)]));
    assert_eq!(run(Instruction::div(NumberType::Long), 9, 0), Err(ExecError::DivisionByZero));
    assert_eq!(run(Instruction::add(NumberType::Int), 1, 2), Err(ExecError::TypeMismatch));
    let mut frame = self::frame(1, &[]);
    frame.push(JvmValue::Long(5));
    assert_eq!(frame.execute(Instruction::neg(NumberType::Long)), Ok(Flow::Next));
    assert_eq!(frame.operand_stack, vec![JvmValue::Long(-5)]);
}

#[test]
fn narrowing_keeps_the_low_bits() {
    for v in [0, 1, -1, 127, 128, 255, 256, 300, -129, 32767, 32768, 65535, 65536, i32::MAX, i32::MIN] {
        assert_eq!(int_to_byte(v), v as i8);
        assert_eq!(int_to_short(v), v as i16);
        assert_eq!(int_to_char(v), v as u16);
        assert_eq!(int_to_boolean(v), v & 1 == 1);
    }
}

#[test]
fn new_arrays_hold_zeros_of_their_type() {
    let mut heap = Heap::new();
    let cases = [
        (ArrayType::Boolean, JvmValue::Boolean(false)),
        (ArrayType::Char, JvmValue::Char(0)),
        (ArrayType::Float, JvmValue::Float(0)),
        (ArrayType::Double, JvmValue::Double(0)),
        (ArrayType::Byte, JvmValue::Byte(0)),
        (ArrayType::Short, JvmValue::Short(0)),
        (ArrayType::Int, JvmValue::Int(0)),
        (ArrayType::Long, JvmValue::Long(0)),
    ];
    for (atype, zero) in cases {
        let reference = heap.new_array(atype, 4).unwrap();
        assert_ne!(reference, 0);
        assert_eq!(heap.array_length(reference), Ok(4));
        match heap.get(reference).unwrap() {
            HeapObject::Array { atype: held, elements } => {
                assert_eq!(*held, atype);
                assert_eq!(elements, &vec![zero; 4]);
            }
            other => panic!("unexpected: {:?}", other),
        }
        assert_eq!(heap.new_array(atype, -1), Err(ExecError::NegativeArraySize));
    }
    let longs = heap.new_array(ArrayType::Long, 1).unwrap();
    assert_eq!(heap.array_store(longs, ArrayLoadStoreType::Long, 0, JvmValue::Long(-9)), Ok(()));
    assert_eq!(
        heap.array_store(longs, ArrayLoadStoreType::Int, 0, JvmValue::Int(1)),
        Err(ExecError::ArrayTypeMismatch)
    );
    assert_eq!(
        heap.array_store(longs, ArrayLoadStoreType::Reference, 0, JvmValue::Reference(0)),
        Err(ExecError::ArrayTypeMismatch)
    );
    let flags = heap.new_array(ArrayType::Boolean, 1).unwrap();
    assert_eq!(heap.array_store(flags, ArrayLoadStoreType::Byte, 0, JvmValue::Int(7)), Ok(()));
    match heap.get(flags).unwrap() {
        HeapObject::Array { elements, .. } => assert_eq!(elements, &vec![JvmValue::Boolean(true)]),
        other => panic!("unexpected: {:?}", other),
    }
}
