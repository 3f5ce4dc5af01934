//! Call frames, and the instructions that touch nothing but their frame.
//!
//! A frame is the state of one method invocation: its locals, its operand
//! stack and its program counter. Most instructions read and write only
//! that; [`local_step`] says what each of them does. The others need the
//! heap or the classes of the machine, and are left to it.

use crate::arith::{
    iadd, idiv, imul, ineg, int_add, int_div, int_mul, int_neg, int_rem, int_sub, irem, isub,
    ladd, ldiv, lmul, lneg, long_add, long_div, long_mul, long_neg, long_rem, long_sub, lrem,
    lsub,
};
use crate::bytes::{i16_to_i32, i32_of_i16, i32_of_i8, i8_to_i32};
use crate::class::{Method, MethodView};
use crate::class_file::MethodAccessFlags;
use crate::error::{ExecError, Feature};
use crate::instructions::{Condition, Instruction, LoadStoreType, NumberType, ReturnType};
pub use crate::value::JvmValue;
use vstd::prelude::*;

verus! {

/// The state of one method invocation.
#[derive(Debug)]
pub struct CallFrame {
    /// The number of the class of the method in the registry.
    pub class: usize,
    /// The place of the method among the methods of its class.
    pub method: usize,
    pub locals: Vec<Option<JvmValue>>,
    pub operand_stack: Vec<JvmValue>,
    /// The index of the instruction to execute next.
    pub pc: usize,
}

/// [`CallFrame`] as contracts see it. The top of the stack is its last
/// element.
pub struct FrameView {
    pub class: usize,
    pub method: usize,
    pub locals: Seq<Option<JvmValue>>,
    pub stack: Seq<JvmValue>,
    pub pc: usize,
}

impl View for CallFrame {
    type V = FrameView;

    open spec fn view(&self) -> FrameView {
        FrameView {
            class: self.class,
            method: self.method,
            locals: self.locals@,
            stack: self.operand_stack@,
            pc: self.pc,
        }
    }
}

/// What is to happen after an instruction has been executed in its frame.
#[derive(Clone, Copy, Debug, PartialEq, Eq, Structural)]
pub enum Flow {
    /// Go on with the next instruction.
    Next,
    /// Go on with the instruction this many places away.
    Branch(i32),
    /// Leave the method, with this result.
    Return(Option<JvmValue>),
    /// The instruction needs the machine. The frame has not been touched.
    Machine,
}

/// The locals of a new frame: the arguments, then empty slots up to
/// `locals`.
pub open spec fn initial_locals(locals: usize, args: Seq<JvmValue>) -> Seq<Option<JvmValue>> {
    Seq::new(
        locals as nat,
        |i: int|
            if i < args.len() {
                Some(args[i])
            } else {
                None
            },
    )
}

/// The frame in which `method`, the method at place `place` of class
/// `class`, starts to run on `args`.
pub open spec fn new_frame(class: usize, place: usize, method: MethodView, args: Seq<JvmValue>) -> Result<
    FrameView,
    ExecError,
> {
    match method.body {
        None => Err(ExecError::MissingMethodBody),
        Some(body) => if method.access_flags.has(MethodAccessFlags::SYNCHRONIZED) {
            Err(ExecError::Unsupported(Feature::Synchronized))
        } else if args.len() > body.locals {
            Err(ExecError::TooManyArguments)
        } else {
            Ok(
                FrameView {
                    class,
                    method: place,
                    locals: initial_locals(body.locals, args),
                    stack: Seq::empty(),
                    pc: 0,
                },
            )
        },
    }
}

/// The top of the stack and what lies under it.
pub open spec fn pop(stack: Seq<JvmValue>) -> Result<(JvmValue, Seq<JvmValue>), ExecError> {
    if stack.len() == 0 {
        Err(ExecError::StackUnderflow)
    } else {
        Ok((stack.last(), stack.drop_last()))
    }
}

/// The int on top of the stack and what lies under it.
pub open spec fn pop_int(stack: Seq<JvmValue>) -> Result<(i32, Seq<JvmValue>), ExecError> {
    match pop(stack) {
        Err(e) => Err(e),
        Ok((JvmValue::Int(v), rest)) => Ok((v, rest)),
        Ok(_) => Err(ExecError::TypeMismatch),
    }
}

/// The long on top of the stack and what lies under it.
pub open spec fn pop_long(stack: Seq<JvmValue>) -> Result<(i64, Seq<JvmValue>), ExecError> {
    match pop(stack) {
        Err(e) => Err(e),
        Ok((JvmValue::Long(v), rest)) => Ok((v, rest)),
        Ok(_) => Err(ExecError::TypeMismatch),
    }
}

/// The reference on top of the stack and what lies under it.
pub open spec fn pop_reference(stack: Seq<JvmValue>) -> Result<(usize, Seq<JvmValue>), ExecError> {
    match pop(stack) {
        Err(e) => Err(e),
        Ok((JvmValue::Reference(r), rest)) => Ok((r, rest)),
        Ok(_) => Err(ExecError::TypeMismatch),
    }
}

/// The frame with another stack.
pub open spec fn with_stack(frame: FrameView, stack: Seq<JvmValue>) -> FrameView {
    FrameView { stack, ..frame }
}

/// The frame with `value` pushed.
pub open spec fn pushed(frame: FrameView, value: JvmValue) -> FrameView {
    with_stack(frame, frame.stack.push(value))
}

/// The constant that `const` pushes: the number itself for an int or a
/// long; the bits of 0.0, 1.0 and 2.0 for a float or a double.
pub open spec fn constant_of(data_type: NumberType, value: i8) -> Option<JvmValue> {
    match data_type {
        NumberType::Int => Some(JvmValue::Int(value as i32)),
        NumberType::Long => Some(JvmValue::Long(value as i64)),
        NumberType::Float => if value == 0 {
            Some(JvmValue::Float(0))
        } else if value == 1 {
            Some(JvmValue::Float(0x3f80_0000))
        } else if value == 2 {
            Some(JvmValue::Float(0x4000_0000))
        } else {
            None
        },
        NumberType::Double => if value == 0 {
            Some(JvmValue::Double(0))
        } else if value == 1 {
            Some(JvmValue::Double(0x3ff0_0000_0000_0000))
        } else {
            None
        },
    }
}

/// What a load of type `data_type` pushes for what the local holds. An
/// empty local loads as zero, or as null for a reference.
pub open spec fn loaded(data_type: LoadStoreType, local: Option<JvmValue>) -> Result<
    JvmValue,
    ExecError,
> {
    match data_type {
        LoadStoreType::Int => match local {
            None => Ok(JvmValue::Int(0)),
            Some(JvmValue::Int(v)) => Ok(JvmValue::Int(v)),
            Some(JvmValue::Byte(v)) => Ok(JvmValue::Int(v as i32)),
            _ => Err(ExecError::TypeMismatch),
        },
        LoadStoreType::Long => match local {
            None => Ok(JvmValue::Long(0)),
            Some(JvmValue::Long(v)) => Ok(JvmValue::Long(v)),
            _ => Err(ExecError::TypeMismatch),
        },
        LoadStoreType::Float => match local {
            None => Ok(JvmValue::Float(0)),
            Some(JvmValue::Float(v)) => Ok(JvmValue::Float(v)),
            _ => Err(ExecError::TypeMismatch),
        },
        LoadStoreType::Double => match local {
            None => Ok(JvmValue::Double(0)),
            Some(JvmValue::Double(v)) => Ok(JvmValue::Double(v)),
            _ => Err(ExecError::TypeMismatch),
        },
        LoadStoreType::Reference => match local {
            None => Ok(JvmValue::Reference(0)),
            Some(JvmValue::Reference(v)) => Ok(JvmValue::Reference(v)),
            Some(JvmValue::ReturnAddress(v)) => Ok(JvmValue::ReturnAddress(v)),
            Some(JvmValue::StringConst { class, index }) => Ok(
                JvmValue::StringConst { class, index },
            ),
            _ => Err(ExecError::TypeMismatch),
        },
    }
}

/// Whether a store of type `data_type` takes `value`.
pub open spec fn storable(data_type: LoadStoreType, value: JvmValue) -> bool {
    match data_type {
        LoadStoreType::Int => value is Int || value is Byte,
        LoadStoreType::Long => value is Long,
        LoadStoreType::Float => value is Float,
        LoadStoreType::Double => value is Double,
        LoadStoreType::Reference => value is Reference || value is ReturnAddress
            || value is StringConst,
    }
}

/// Whether a return of type `data_type` takes `value`.
pub open spec fn returnable(data_type: ReturnType, value: JvmValue) -> bool {
    match data_type {
        ReturnType::Void => false,
        ReturnType::Int => value is Int || value is Byte || value is Short || value is Char
            || value is Boolean,
        ReturnType::Long => value is Long,
        ReturnType::Float => value is Float,
        ReturnType::Double => value is Double,
        ReturnType::Reference => value is Reference || value is StringConst,
    }
}

/// Whether `a` stands to `b` as the condition says.
pub open spec fn condition_holds(condition: Condition, a: i32, b: i32) -> bool {
    match condition {
        Condition::Eq => a == b,
        Condition::Ne => a != b,
        Condition::Lt => a < b,
        Condition::Le => a <= b,
        Condition::Gt => a > b,
        Condition::Ge => a >= b,
    }
}

/// `const`.
pub open spec fn step_const(frame: FrameView, instruction: Instruction) -> Result<
    (FrameView, Flow),
    ExecError,
> {
    match instruction {
        Instruction::const_ { data_type, value } => match constant_of(data_type, value) {
            Some(constant) => Ok((pushed(frame, constant), Flow::Next)),
            None => Err(ExecError::Unsupported(Feature::Instruction(instruction))),
        },
        _ => Err(ExecError::Unsupported(Feature::Instruction(instruction))),
    }
}

/// `load`: pushes what the local holds.
pub open spec fn step_load(frame: FrameView, data_type: LoadStoreType, index: u8) -> Result<
    (FrameView, Flow),
    ExecError,
> {
    if index >= frame.locals.len() {
        Err(ExecError::LocalOutOfRange)
    } else {
        match loaded(data_type, frame.locals[index as int]) {
            Err(e) => Err(e),
            Ok(value) => Ok((pushed(frame, value), Flow::Next)),
        }
    }
}

/// `store`: pops a value into the local.
pub open spec fn step_store(frame: FrameView, data_type: LoadStoreType, index: u8) -> Result<
    (FrameView, Flow),
    ExecError,
> {
    match pop(frame.stack) {
        Err(e) => Err(e),
        Ok((value, rest)) => if !storable(data_type, value) {
            Err(ExecError::TypeMismatch)
        } else if index >= frame.locals.len() {
            Err(ExecError::LocalOutOfRange)
        } else {
            Ok(
                (
                    FrameView {
                        locals: frame.locals.update(index as int, Some(value)),
                        stack: rest,
                        ..frame
                    },
                    Flow::Next,
                ),
            )
        },
    }
}

/// What a binary instruction on ints makes of its operands, the second of
/// which was on top of the stack.
pub open spec fn int_binary(instruction: Instruction, a: i32, b: i32) -> Result<i32, ExecError> {
    match instruction {
        Instruction::add { .. } => Ok(iadd(a, b)),
        Instruction::sub { .. } => Ok(isub(a, b)),
        Instruction::mul { .. } => Ok(imul(a, b)),
        Instruction::div { .. } => if b == 0 {
            Err(ExecError::DivisionByZero)
        } else {
            Ok(idiv(a, b))
        },
        Instruction::rem { .. } => if b == 0 {
            Err(ExecError::DivisionByZero)
        } else {
            Ok(irem(a, b))
        },
        _ => Err(ExecError::Unsupported(Feature::Instruction(instruction))),
    }
}

/// What a binary instruction on longs makes of its operands, the second of
/// which was on top of the stack.
pub open spec fn long_binary(instruction: Instruction, a: i64, b: i64) -> Result<i64, ExecError> {
    match instruction {
        Instruction::add { .. } => Ok(ladd(a, b)),
        Instruction::sub { .. } => Ok(lsub(a, b)),
        Instruction::mul { .. } => Ok(lmul(a, b)),
        Instruction::div { .. } => if b == 0 {
            Err(ExecError::DivisionByZero)
        } else {
            Ok(ldiv(a, b))
        },
        Instruction::rem { .. } => if b == 0 {
            Err(ExecError::DivisionByZero)
        } else {
            Ok(lrem(a, b))
        },
        _ => Err(ExecError::Unsupported(Feature::Instruction(instruction))),
    }
}

/// The type of the numbers that an arithmetic instruction with two operands
/// works on; `None` for any other instruction.
pub open spec fn binary_type(instruction: Instruction) -> Option<NumberType> {
    match instruction {
        Instruction::add { data_type } => Some(data_type),
        Instruction::sub { data_type } => Some(data_type),
        Instruction::mul { data_type } => Some(data_type),
        Instruction::div { data_type } => Some(data_type),
        Instruction::rem { data_type } => Some(data_type),
        _ => None,
    }
}

/// `add`, `sub`, `mul`, `div`, `rem` on ints and on longs: pops the second
/// operand, then the first, and pushes what the instruction makes of them.
/// On floats and doubles they are not implemented.
pub open spec fn step_binary(frame: FrameView, instruction: Instruction) -> Result<
    (FrameView, Flow),
    ExecError,
> {
    match binary_type(instruction) {
        Some(NumberType::Int) => match pop_int(frame.stack) {
            Err(e) => Err(e),
            Ok((b, rest)) => match pop_int(rest) {
                Err(e) => Err(e),
                Ok((a, rest)) => match int_binary(instruction, a, b) {
                    Err(e) => Err(e),
                    Ok(result) => Ok(
                        (with_stack(frame, rest.push(JvmValue::Int(result))), Flow::Next),
                    ),
                },
            },
        },
        Some(NumberType::Long) => match pop_long(frame.stack) {
            Err(e) => Err(e),
            Ok((b, rest)) => match pop_long(rest) {
                Err(e) => Err(e),
                Ok((a, rest)) => match long_binary(instruction, a, b) {
                    Err(e) => Err(e),
                    Ok(result) => Ok(
                        (with_stack(frame, rest.push(JvmValue::Long(result))), Flow::Next),
                    ),
                },
            },
        },
        _ => Err(ExecError::Unsupported(Feature::Instruction(instruction))),
    }
}

/// `neg` on an int or a long. On floats and doubles it is not implemented.
pub open spec fn step_neg(frame: FrameView, instruction: Instruction) -> Result<
    (FrameView, Flow),
    ExecError,
> {
    match instruction {
        Instruction::neg { data_type: NumberType::Int } => match pop_int(frame.stack) {
            Err(e) => Err(e),
            Ok((a, rest)) => Ok(
                (with_stack(frame, rest.push(JvmValue::Int(ineg(a)))), Flow::Next),
            ),
        },
        Instruction::neg { data_type: NumberType::Long } => match pop_long(frame.stack) {
            Err(e) => Err(e),
            Ok((a, rest)) => Ok(
                (with_stack(frame, rest.push(JvmValue::Long(lneg(a)))), Flow::Next),
            ),
        },
        _ => Err(ExecError::Unsupported(Feature::Instruction(instruction))),
    }
}

/// `if`: pops an int and branches if it stands to zero as the condition
/// says.
pub open spec fn step_if(frame: FrameView, condition: Condition, branch: i16) -> Result<
    (FrameView, Flow),
    ExecError,
> {
    match pop_int(frame.stack) {
        Err(e) => Err(e),
        Ok((value, rest)) => Ok(
            (
                with_stack(frame, rest),
                if condition_holds(condition, value, 0) {
                    Flow::Branch(branch as i32)
                } else {
                    Flow::Next
                },
            ),
        ),
    }
}

/// The conditional branch on two ints: pops the second, then the first, and
/// branches if the first stands to the second as the condition says.
pub open spec fn step_if_pair(frame: FrameView, condition: Condition, branch: i16) -> Result<
    (FrameView, Flow),
    ExecError,
> {
    match pop_int(frame.stack) {
        Err(e) => Err(e),
        Ok((second, rest)) => match pop_int(rest) {
            Err(e) => Err(e),
            Ok((first, rest)) => Ok(
                (
                    with_stack(frame, rest),
                    if condition_holds(condition, first, second) {
                        Flow::Branch(branch as i32)
                    } else {
                        Flow::Next
                    },
                ),
            ),
        },
    }
}

/// `inc`: adds a constant to an int local, in place.
pub open spec fn step_inc(frame: FrameView, index: u8, value: i8) -> Result<
    (FrameView, Flow),
    ExecError,
> {
    if index >= frame.locals.len() {
        Err(ExecError::LocalOutOfRange)
    } else {
        match frame.locals[index as int] {
            Some(JvmValue::Int(v)) => Ok(
                (
                    FrameView {
                        locals: frame.locals.update(
                            index as int,
                            Some(JvmValue::Int(iadd(v, value as i32))),
                        ),
                        ..frame
                    },
                    Flow::Next,
                ),
            ),
            _ => Err(ExecError::TypeMismatch),
        }
    }
}

/// `dup`.
pub open spec fn step_dup(frame: FrameView) -> Result<(FrameView, Flow), ExecError> {
    if frame.stack.len() == 0 {
        Err(ExecError::StackUnderflow)
    } else {
        Ok((pushed(frame, frame.stack.last()), Flow::Next))
    }
}

/// `return`: leaves the method, with the value on top of the stack unless
/// the method returns nothing.
pub open spec fn step_return(frame: FrameView, data_type: ReturnType) -> Result<
    (FrameView, Flow),
    ExecError,
> {
    match data_type {
        ReturnType::Void => Ok((frame, Flow::Return(None))),
        _ => match pop(frame.stack) {
            Err(e) => Err(e),
            Ok((value, rest)) => if returnable(data_type, value) {
                Ok((with_stack(frame, rest), Flow::Return(Some(value))))
            } else {
                Err(ExecError::TypeMismatch)
            },
        },
    }
}

/// What an instruction does to its frame, and what is to happen next.
///
/// The instructions that need the heap or the classes of the machine leave
/// the frame as it is and answer [`Flow::Machine`]. An instruction that is
/// not implemented is an error.
pub open spec fn local_step(frame: FrameView, instruction: Instruction) -> Result<
    (FrameView, Flow),
    ExecError,
> {
    match instruction {
        Instruction::return_ { data_type } => step_return(frame, data_type),
        Instruction::const_ { .. } => step_const(frame, instruction),
        Instruction::bipush { value } => Ok(
            (pushed(frame, JvmValue::Int(i32_of_i8(value))), Flow::Next),
        ),
        Instruction::sipush { value } => Ok(
            (pushed(frame, JvmValue::Int(i32_of_i16(value))), Flow::Next),
        ),
        Instruction::load { data_type, index } => step_load(frame, data_type, index),
        Instruction::store { data_type, index } => step_store(frame, data_type, index),
        Instruction::add { .. } => step_binary(frame, instruction),
        Instruction::sub { .. } => step_binary(frame, instruction),
        Instruction::mul { .. } => step_binary(frame, instruction),
        Instruction::div { .. } => step_binary(frame, instruction),
        Instruction::rem { .. } => step_binary(frame, instruction),
        Instruction::neg { .. } => step_neg(frame, instruction),
        Instruction::if_ { condition, branch } => step_if(frame, condition, branch),
        Instruction::if_icmp { condition, branch } => step_if_pair(frame, condition, branch),
        Instruction::goto { branch } => Ok((frame, Flow::Branch(branch))),
        Instruction::inc { index, value } => step_inc(frame, index, value),
        Instruction::aconst_null => Ok((pushed(frame, JvmValue::Reference(0)), Flow::Next)),
        Instruction::dup => step_dup(frame),
        Instruction::ldc { .. } => Ok((frame, Flow::Machine)),
        Instruction::invoke { .. } => Ok((frame, Flow::Machine)),
        Instruction::new { .. } => Ok((frame, Flow::Machine)),
        Instruction::newarray { .. } => Ok((frame, Flow::Machine)),
        Instruction::arraylength => Ok((frame, Flow::Machine)),
        Instruction::arraystore { .. } => Ok((frame, Flow::Machine)),
        Instruction::getfield { .. } => Ok((frame, Flow::Machine)),
        Instruction::putfield { .. } => Ok((frame, Flow::Machine)),
        Instruction::getstatic { .. } => Ok((frame, Flow::Machine)),
        Instruction::putstatic { .. } => Ok((frame, Flow::Machine)),
        _ => Err(ExecError::Unsupported(Feature::Instruction(instruction))),
    }
}

/// The index of the instruction that comes next in a method of `length`
/// instructions: the one after `pc`, or the one `offset` places from it. It
/// is an error if that lies outside the method.
pub open spec fn advanced(pc: usize, flow: Flow, length: int) -> Result<usize, ExecError> {
    let target = match flow {
        Flow::Branch(offset) => pc + offset,
        _ => pc + 1,
    };
    if 0 <= target < length && target <= usize::MAX {
        Ok(target as usize)
    } else {
        Err(ExecError::ProgramCounterOverflow)
    }
}

/// A constant that is stored to a local and loaded from it again is the
/// constant: `iconst k`, `istore i`, `iload i` leave the int `k` on the
/// stack, and the stack under it as it was.
pub proof fn lemma_const_store_load(frame: FrameView, k: i8, i: u8)
    requires
        i < frame.locals.len(),
    ensures
        ({
            let after_const = local_step(
                frame,
                Instruction::const_ { data_type: NumberType::Int, value: k },
            );
            let after_store = local_step(
                after_const->Ok_0.0,
                Instruction::store { data_type: LoadStoreType::Int, index: i },
            );
            let after_load = local_step(
                after_store->Ok_0.0,
                Instruction::load { data_type: LoadStoreType::Int, index: i },
            );
            &&& after_const is Ok
            &&& after_store is Ok
            &&& after_load is Ok
            &&& after_load->Ok_0.0.stack == frame.stack.push(JvmValue::Int(k as i32))
            &&& after_load->Ok_0.1 == Flow::Next
        }),
{
    let after_const = local_step(
        frame,
        Instruction::const_ { data_type: NumberType::Int, value: k },
    );
    assert(after_const->Ok_0.0.stack.drop_last() =~= frame.stack);
}

/// The constant that `const` pushes.
fn constant(data_type: NumberType, value: i8) -> (r: Option<JvmValue>)
    ensures
        r == constant_of(data_type, value),
{
    match data_type {
        NumberType::Int => Some(JvmValue::Int(value as i32)),
        NumberType::Long => Some(JvmValue::Long(value as i64)),
        NumberType::Float => if value == 0 {
            Some(JvmValue::Float(0))
        } else if value == 1 {
            Some(JvmValue::Float(0x3f80_0000))
        } else if value == 2 {
            Some(JvmValue::Float(0x4000_0000))
        } else {
            None
        },
        NumberType::Double => if value == 0 {
            Some(JvmValue::Double(0))
        } else if value == 1 {
            Some(JvmValue::Double(0x3ff0_0000_0000_0000))
        } else {
            None
        },
    }
}

/// What a load of type `data_type` pushes for what the local holds.
fn load_value(data_type: LoadStoreType, local: Option<JvmValue>) -> (r: Result<JvmValue, ExecError>)
    ensures
        r == loaded(data_type, local),
{
    match data_type {
        LoadStoreType::Int => match local {
            None => Ok(JvmValue::Int(0)),
            Some(JvmValue::Int(v)) => Ok(JvmValue::Int(v)),
            Some(JvmValue::Byte(v)) => Ok(JvmValue::Int(v as i32)),
            _ => Err(ExecError::TypeMismatch),
        },
        LoadStoreType::Long => match local {
            None => Ok(JvmValue::Long(0)),
            Some(JvmValue::Long(v)) => Ok(JvmValue::Long(v)),
            _ => Err(ExecError::TypeMismatch),
        },
        LoadStoreType::Float => match local {
            None => Ok(JvmValue::Float(0)),
            Some(JvmValue::Float(v)) => Ok(JvmValue::Float(v)),
            _ => Err(ExecError::TypeMismatch),
        },
        LoadStoreType::Double => match local {
            None => Ok(JvmValue::Double(0)),
            Some(JvmValue::Double(v)) => Ok(JvmValue::Double(v)),
            _ => Err(ExecError::TypeMismatch),
        },
        LoadStoreType::Reference => match local {
            None => Ok(JvmValue::Reference(0)),
            Some(JvmValue::Reference(v)) => Ok(JvmValue::Reference(v)),
            Some(JvmValue::ReturnAddress(v)) => Ok(JvmValue::ReturnAddress(v)),
            Some(JvmValue::StringConst { class, index }) => Ok(
                JvmValue::StringConst { class, index },
            ),
            _ => Err(ExecError::TypeMismatch),
        },
    }
}

/// Whether a store of type `data_type` takes `value`.
fn can_store(data_type: LoadStoreType, value: JvmValue) -> (r: bool)
    ensures
        r == storable(data_type, value),
{
    match data_type {
        LoadStoreType::Int => match value {
            JvmValue::Int(_) => true,
            JvmValue::Byte(_) => true,
            _ => false,
        },
        LoadStoreType::Long => match value {
            JvmValue::Long(_) => true,
            _ => false,
        },
        LoadStoreType::Float => match value {
            JvmValue::Float(_) => true,
            _ => false,
        },
        LoadStoreType::Double => match value {
            JvmValue::Double(_) => true,
            _ => false,
        },
        LoadStoreType::Reference => match value {
            JvmValue::Reference(_) => true,
            JvmValue::ReturnAddress(_) => true,
            JvmValue::StringConst { .. } => true,
            _ => false,
        },
    }
}

/// Whether a return of type `data_type` takes `value`.
fn can_return(data_type: ReturnType, value: JvmValue) -> (r: bool)
    ensures
        r == returnable(data_type, value),
{
    match data_type {
        ReturnType::Void => false,
        ReturnType::Int => match value {
            JvmValue::Int(_) => true,
            JvmValue::Byte(_) => true,
            JvmValue::Short(_) => true,
            JvmValue::Char(_) => true,
            JvmValue::Boolean(_) => true,
            _ => false,
        },
        ReturnType::Long => match value {
            JvmValue::Long(_) => true,
            _ => false,
        },
        ReturnType::Float => match value {
            JvmValue::Float(_) => true,
            _ => false,
        },
        ReturnType::Double => match value {
            JvmValue::Double(_) => true,
            _ => false,
        },
        ReturnType::Reference => match value {
            JvmValue::Reference(_) => true,
            JvmValue::StringConst { .. } => true,
            _ => false,
        },
    }
}

/// Whether `a` stands to `b` as the condition says.
fn holds(condition: Condition, a: i32, b: i32) -> (r: bool)
    ensures
        r == condition_holds(condition, a, b),
{
    match condition {
        Condition::Eq => a == b,
        Condition::Ne => a != b,
        Condition::Lt => a < b,
        Condition::Le => a <= b,
        Condition::Gt => a > b,
        Condition::Ge => a >= b,
    }
}

/// What a binary instruction on ints makes of its operands.
fn binary(instruction: Instruction, a: i32, b: i32) -> (r: Result<i32, ExecError>)
    ensures
        r == int_binary(instruction, a, b),
{
    match instruction {
        Instruction::add { .. } => Ok(int_add(a, b)),
        Instruction::sub { .. } => Ok(int_sub(a, b)),
        Instruction::mul { .. } => Ok(int_mul(a, b)),
        Instruction::div { .. } => match int_div(a, b) {
            Some(q) => Ok(q),
            None => Err(ExecError::DivisionByZero),
        },
        Instruction::rem { .. } => match int_rem(a, b) {
            Some(m) => Ok(m),
            None => Err(ExecError::DivisionByZero),
        },
        _ => Err(ExecError::Unsupported(Feature::Instruction(instruction))),
    }
}

/// What a binary instruction on longs makes of its operands.
fn binary_long(instruction: Instruction, a: i64, b: i64) -> (r: Result<i64, ExecError>)
    ensures
        r == long_binary(instruction, a, b),
{
    match instruction {
        Instruction::add { .. } => Ok(long_add(a, b)),
        Instruction::sub { .. } => Ok(long_sub(a, b)),
        Instruction::mul { .. } => Ok(long_mul(a, b)),
        Instruction::div { .. } => match long_div(a, b) {
            Some(q) => Ok(q),
            None => Err(ExecError::DivisionByZero),
        },
        Instruction::rem { .. } => match long_rem(a, b) {
            Some(m) => Ok(m),
            None => Err(ExecError::DivisionByZero),
        },
        _ => Err(ExecError::Unsupported(Feature::Instruction(instruction))),
    }
}

/// The type of the numbers that an arithmetic instruction with two operands
/// works on.
fn type_of_binary(instruction: Instruction) -> (r: Option<NumberType>)
    ensures
        r == binary_type(instruction),
{
    match instruction {
        Instruction::add { data_type } => Some(data_type),
        Instruction::sub { data_type } => Some(data_type),
        Instruction::mul { data_type } => Some(data_type),
        Instruction::div { data_type } => Some(data_type),
        Instruction::rem { data_type } => Some(data_type),
        _ => None,
    }
}

impl CallFrame {
    /// The frame in which `method`, the method at place `place` of class
    /// `class`, starts to run: the arguments are its first locals, its stack
    /// is empty, and its first instruction is next.
    ///
    /// Fails for a method without code, for a synchronized method, and for
    /// more arguments than the method has locals.
    pub fn new(class: usize, place: usize, method: &Method, args: &[JvmValue]) -> (r: Result<
        CallFrame,
        ExecError,
    >)
        ensures
            match r {
                Ok(frame) => new_frame(class, place, method@, args@) == Ok::<
                    FrameView,
                    ExecError,
                >(frame@),
                Err(e) => new_frame(class, place, method@, args@) == Err::<FrameView, ExecError>(
                    e,
                ),
            },
    {
        let body = match &method.body {
            Some(body) => body,
            None => {
                return Err(ExecError::MissingMethodBody);
            },
        };
        if method.access_flags.contains(MethodAccessFlags::SYNCHRONIZED) {
            return Err(ExecError::Unsupported(Feature::Synchronized));
        }
        if args.len() > body.locals {
            return Err(ExecError::TooManyArguments);
        }
        let mut locals: Vec<Option<JvmValue>> = Vec::new();
        let mut i: usize = 0;
        while i < body.locals
            invariant
                i <= body.locals,
                args.len() <= body.locals,
                locals@ =~= initial_locals(body.locals, args@).subrange(0, i as int),
            decreases body.locals - i,
        {
            if i < args.len() {
                locals.push(Some(args[i]));
            } else {
                locals.push(None);
            }
            i = i + 1;
        }
        assert(locals@ =~= initial_locals(body.locals, args@));
        Ok(CallFrame { class, method: place, locals, operand_stack: Vec::new(), pc: 0 })
    }

    /// Pushes a value on the operand stack.
    pub fn push(&mut self, value: JvmValue)
        ensures
            final(self)@ == pushed(old(self)@, value),
    {
        self.operand_stack.push(value);
    }

    /// Takes the top of the operand stack.
    pub fn pop(&mut self) -> (r: Result<JvmValue, ExecError>)
        ensures
            match r {
                Ok(value) => pop(old(self)@.stack) == Ok::<(JvmValue, Seq<JvmValue>), ExecError>(
                    (value, final(self)@.stack),
                ) && final(self)@ == with_stack(old(self)@, final(self)@.stack),
                Err(e) => pop(old(self)@.stack) == Err::<(JvmValue, Seq<JvmValue>), ExecError>(e)
                    && final(self)@ == old(self)@,
            },
    {
        match self.operand_stack.pop() {
            Some(value) => Ok(value),
            None => Err(ExecError::StackUnderflow),
        }
    }

    /// Takes the int on top of the operand stack.
    pub fn pop_int(&mut self) -> (r: Result<i32, ExecError>)
        ensures
            match r {
                Ok(value) => pop_int(old(self)@.stack) == Ok::<(i32, Seq<JvmValue>), ExecError>(
                    (value, final(self)@.stack),
                ) && final(self)@ == with_stack(old(self)@, final(self)@.stack),
                Err(e) => pop_int(old(self)@.stack) == Err::<(i32, Seq<JvmValue>), ExecError>(e),
            },
    {
        match self.pop()? {
            JvmValue::Int(value) => Ok(value),
            _ => Err(ExecError::TypeMismatch),
        }
    }

    /// Takes the long on top of the operand stack.
    pub fn pop_long(&mut self) -> (r: Result<i64, ExecError>)
        ensures
            match r {
                Ok(value) => pop_long(old(self)@.stack) == Ok::<(i64, Seq<JvmValue>), ExecError>(
                    (value, final(self)@.stack),
                ) && final(self)@ == with_stack(old(self)@, final(self)@.stack),
                Err(e) => pop_long(old(self)@.stack) == Err::<(i64, Seq<JvmValue>), ExecError>(e),
            },
    {
        match self.pop()? {
            JvmValue::Long(value) => Ok(value),
            _ => Err(ExecError::TypeMismatch),
        }
    }

    /// Takes the reference on top of the operand stack.
    pub fn pop_reference(&mut self) -> (r: Result<usize, ExecError>)
        ensures
            match r {
                Ok(value) => pop_reference(old(self)@.stack) == Ok::<
                    (usize, Seq<JvmValue>),
                    ExecError,
                >((value, final(self)@.stack)) && final(self)@ == with_stack(
                    old(self)@,
                    final(self)@.stack,
                ),
                Err(e) => pop_reference(old(self)@.stack) == Err::<
                    (usize, Seq<JvmValue>),
                    ExecError,
                >(e),
            },
    {
        match self.pop()? {
            JvmValue::Reference(value) => Ok(value),
            _ => Err(ExecError::TypeMismatch),
        }
    }

    /// `load`.
    fn load(&mut self, data_type: LoadStoreType, index: u8) -> (r: Result<Flow, ExecError>)
        ensures
            match r {
                Ok(flow) => step_load(old(self)@, data_type, index) == Ok::<
                    (FrameView, Flow),
                    ExecError,
                >((final(self)@, flow)),
                Err(e) => step_load(old(self)@, data_type, index) == Err::<
                    (FrameView, Flow),
                    ExecError,
                >(e),
            },
    {
        if index as usize >= self.locals.len() {
            return Err(ExecError::LocalOutOfRange);
        }
        let value = load_value(data_type, self.locals[index as usize])?;
        self.push(value);
        Ok(Flow::Next)
    }

    /// `store`.
    fn store(&mut self, data_type: LoadStoreType, index: u8) -> (r: Result<Flow, ExecError>)
        ensures
            match r {
                Ok(flow) => step_store(old(self)@, data_type, index) == Ok::<
                    (FrameView, Flow),
                    ExecError,
                >((final(self)@, flow)),
                Err(e) => step_store(old(self)@, data_type, index) == Err::<
                    (FrameView, Flow),
                    ExecError,
                >(e),
            },
    {
        let value = self.pop()?;
        if !can_store(data_type, value) {
            return Err(ExecError::TypeMismatch);
        }
        if index as usize >= self.locals.len() {
            return Err(ExecError::LocalOutOfRange);
        }
        self.locals.set(index as usize, Some(value));
        Ok(Flow::Next)
    }

    /// `add`, `sub`, `mul`, `div`, `rem`.
    fn binary(&mut self, instruction: Instruction) -> (r: Result<Flow, ExecError>)
        ensures
            match r {
                Ok(flow) => step_binary(old(self)@, instruction) == Ok::<
                    (FrameView, Flow),
                    ExecError,
                >((final(self)@, flow)),
                Err(e) => step_binary(old(self)@, instruction) == Err::<
                    (FrameView, Flow),
                    ExecError,
                >(e),
            },
    {
        match type_of_binary(instruction) {
            Some(NumberType::Int) => {
                let b = self.pop_int()?;
                let a = self.pop_int()?;
                let result = binary(instruction, a, b)?;
                self.push(JvmValue::Int(result));
                Ok(Flow::Next)
            },
            Some(NumberType::Long) => {
                let b = self.pop_long()?;
                let a = self.pop_long()?;
                let result = binary_long(instruction, a, b)?;
                self.push(JvmValue::Long(result));
                Ok(Flow::Next)
            },
            _ => Err(ExecError::Unsupported(Feature::Instruction(instruction))),
        }
    }

    /// `neg`.
    fn negate(&mut self, instruction: Instruction) -> (r: Result<Flow, ExecError>)
        ensures
            match r {
                Ok(flow) => step_neg(old(self)@, instruction) == Ok::<
                    (FrameView, Flow),
                    ExecError,
                >((final(self)@, flow)),
                Err(e) => step_neg(old(self)@, instruction) == Err::<
                    (FrameView, Flow),
                    ExecError,
                >(e),
            },
    {
        match instruction {
            Instruction::neg { data_type: NumberType::Int } => {
                let a = self.pop_int()?;
                self.push(JvmValue::Int(int_neg(a)));
                Ok(Flow::Next)
            },
            Instruction::neg { data_type: NumberType::Long } => {
                let a = self.pop_long()?;
                self.push(JvmValue::Long(long_neg(a)));
                Ok(Flow::Next)
            },
            _ => Err(ExecError::Unsupported(Feature::Instruction(instruction))),
        }
    }

    /// `if`.
    fn branch_on_zero(&mut self, condition: Condition, branch: i16) -> (r: Result<
        Flow,
        ExecError,
    >)
        ensures
            match r {
                Ok(flow) => step_if(old(self)@, condition, branch) == Ok::<
                    (FrameView, Flow),
                    ExecError,
                >((final(self)@, flow)),
                Err(e) => step_if(old(self)@, condition, branch) == Err::<
                    (FrameView, Flow),
                    ExecError,
                >(e),
            },
    {
        let value = self.pop_int()?;
        if holds(condition, value, 0) {
            Ok(Flow::Branch(branch as i32))
        } else {
            Ok(Flow::Next)
        }
    }

    /// The conditional branch on two ints.
    fn branch_on_pair(&mut self, condition: Condition, branch: i16) -> (r: Result<
        Flow,
        ExecError,
    >)
        ensures
            match r {
                Ok(flow) => step_if_pair(old(self)@, condition, branch) == Ok::<
                    (FrameView, Flow),
                    ExecError,
                >((final(self)@, flow)),
                Err(e) => step_if_pair(old(self)@, condition, branch) == Err::<
                    (FrameView, Flow),
                    ExecError,
                >(e),
            },
    {
        let second = self.pop_int()?;
        let first = self.pop_int()?;
        if holds(condition, first, second) {
            Ok(Flow::Branch(branch as i32))
        } else {
            Ok(Flow::Next)
        }
    }

    /// `inc`.
    fn increment(&mut self, index: u8, value: i8) -> (r: Result<Flow, ExecError>)
        ensures
            match r {
                Ok(flow) => step_inc(old(self)@, index, value) == Ok::<
                    (FrameView, Flow),
                    ExecError,
                >((final(self)@, flow)),
                Err(e) => step_inc(old(self)@, index, value) == Err::<
                    (FrameView, Flow),
                    ExecError,
                >(e),
            },
    {
        if index as usize >= self.locals.len() {
            return Err(ExecError::LocalOutOfRange);
        }
        match self.locals[index as usize] {
            Some(JvmValue::Int(v)) => {
                self.locals.set(index as usize, Some(JvmValue::Int(int_add(v, value as i32))));
                Ok(Flow::Next)
            },
            _ => Err(ExecError::TypeMismatch),
        }
    }

    /// `return`.
    fn leave(&mut self, data_type: ReturnType) -> (r: Result<Flow, ExecError>)
        ensures
            match r {
                Ok(flow) => step_return(old(self)@, data_type) == Ok::<
                    (FrameView, Flow),
                    ExecError,
                >((final(self)@, flow)),
                Err(e) => step_return(old(self)@, data_type) == Err::<
                    (FrameView, Flow),
                    ExecError,
                >(e),
            },
    {
        match data_type {
            ReturnType::Void => Ok(Flow::Return(None)),
            _ => {
                let value = self.pop()?;
                if can_return(data_type, value) {
                    Ok(Flow::Return(Some(value)))
                } else {
                    Err(ExecError::TypeMismatch)
                }
            },
        }
    }

    /// Executes an instruction as far as it concerns this frame alone.
    ///
    /// On success the frame is what [`local_step`] says, and the answer is
    /// what is to happen next; the program counter is left to the caller.
    /// For an instruction that needs the machine the frame is not touched and
    /// the answer is [`Flow::Machine`].
    pub fn execute(&mut self, instruction: Instruction) -> (r: Result<Flow, ExecError>)
        ensures
            match r {
                Ok(flow) => local_step(old(self)@, instruction) == Ok::<
                    (FrameView, Flow),
                    ExecError,
                >((final(self)@, flow)),
                Err(e) => local_step(old(self)@, instruction) == Err::<
                    (FrameView, Flow),
                    ExecError,
                >(e),
            },
    {
        match instruction {
            Instruction::return_ { data_type } => self.leave(data_type),
            Instruction::const_ { data_type, value } => match constant(data_type, value) {
                Some(value) => {
                    self.push(value);
                    Ok(Flow::Next)
                },
                None => Err(ExecError::Unsupported(Feature::Instruction(instruction))),
            },
            Instruction::bipush { value } => {
                self.push(JvmValue::Int(i8_to_i32(value)));
                Ok(Flow::Next)
            },
            Instruction::sipush { value } => {
                self.push(JvmValue::Int(i16_to_i32(value)));
                Ok(Flow::Next)
            },
            Instruction::load { data_type, index } => self.load(data_type, index),
            Instruction::store { data_type, index } => self.store(data_type, index),
            Instruction::add { .. } => self.binary(instruction),
            Instruction::sub { .. } => self.binary(instruction),
            Instruction::mul { .. } => self.binary(instruction),
            Instruction::div { .. } => self.binary(instruction),
            Instruction::rem { .. } => self.binary(instruction),
            Instruction::neg { .. } => self.negate(instruction),
            Instruction::if_ { condition, branch } => self.branch_on_zero(condition, branch),
            Instruction::if_icmp { condition, branch } => self.branch_on_pair(condition, branch),
            Instruction::goto { branch } => Ok(Flow::Branch(branch)),
            Instruction::inc { index, value } => self.increment(index, value),
            Instruction::aconst_null => {
                self.push(JvmValue::Reference(0));
                Ok(Flow::Next)
            },
            Instruction::dup => {
                if self.operand_stack.len() == 0 {
                    return Err(ExecError::StackUnderflow);
                }
                let top = self.operand_stack[self.operand_stack.len() - 1];
                self.push(top);
                Ok(Flow::Next)
            },
            Instruction::ldc { .. } => Ok(Flow::Machine),
            Instruction::invoke { .. } => Ok(Flow::Machine),
            Instruction::new { .. } => Ok(Flow::Machine),
            Instruction::newarray { .. } => Ok(Flow::Machine),
            Instruction::arraylength => Ok(Flow::Machine),
            Instruction::arraystore { .. } => Ok(Flow::Machine),
            Instruction::getfield { .. } => Ok(Flow::Machine),
            Instruction::putfield { .. } => Ok(Flow::Machine),
            Instruction::getstatic { .. } => Ok(Flow::Machine),
            Instruction::putstatic { .. } => Ok(Flow::Machine),
            _ => Err(ExecError::Unsupported(Feature::Instruction(instruction))),
        }
    }

    /// Moves the program counter on, in a method of `length` instructions:
    /// to the next instruction, or by the distance of a branch.
    pub fn advance(&mut self, flow: Flow, length: usize) -> (r: Result<(), ExecError>)
        ensures
            match r {
                Ok(()) => advanced(old(self).pc, flow, length as int) == Ok::<usize, ExecError>(
                    final(self).pc,
                ) && final(self)@ == (FrameView { pc: final(self).pc, ..old(self)@ }),
                Err(e) => advanced(old(self).pc, flow, length as int) == Err::<usize, ExecError>(e)
                    && final(self)@ == old(self)@,
            },
    {
        let target: i128 = match flow {
            Flow::Branch(offset) => self.pc as i128 + offset as i128,
            _ => self.pc as i128 + 1,
        };
        if 0 <= target && target < length as i128 {
            self.pc = target as usize;
            Ok(())
        } else {
            Err(ExecError::ProgramCounterOverflow)
        }
    }
}

} // verus!
