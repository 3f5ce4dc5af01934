//! Errors of the interpreter.

use crate::class_file::constant_pool::BadConstantPoolEntry;
use crate::instructions::Instruction;
use vstd::prelude::*;

verus! {

/// What the machine does not do.
#[derive(Clone, Copy, Debug, PartialEq, Eq, Structural)]
pub enum Feature {
    /// Synchronized methods: monitors are not modelled.
    Synchronized,
    /// This instruction, or this form of it.
    Instruction(Instruction),
}

/// Why the execution of an instruction failed. No error is recovered from:
/// the first one ends the run.
#[derive(Clone, Copy, Debug, PartialEq, Eq, Structural)]
pub enum ExecError {
    /// There is no frame to run.
    NoFrame,
    /// The method to run has no code: it is abstract or native.
    MissingMethodBody,
    /// The program needs something that is not implemented.
    Unsupported(Feature),
    /// The value handed to `print` has no rendering.
    Unprintable,
    /// An object refers to itself, or objects nest too deep to be printed.
    RenderTooDeep,
    /// The operand stack holds fewer values than the instruction takes.
    StackUnderflow,
    /// A value is not of the kind that the instruction takes.
    TypeMismatch,
    /// The method has no local with this index.
    LocalOutOfRange,
    /// The method takes more arguments than it has locals.
    TooManyArguments,
    /// A constant is not where the instruction says it is.
    BadConstantPoolEntry(BadConstantPoolEntry),
    /// The class and its super classes have no method of this name and
    /// descriptor.
    NoSuchMethod,
    /// The class has no field of this name and descriptor.
    NoSuchField,
    /// The reference is null.
    NullReference,
    /// The reference leads to nothing on the heap.
    InvalidReference,
    /// The reference leads to an object where an array is needed.
    NotAnArray,
    /// The reference leads to an array where an object is needed.
    NotAnObject,
    /// The array has no element with this index.
    ArrayIndexOutOfBounds,
    /// `newarray` was asked for an array of negative length.
    NegativeArraySize,
    /// The element type of the array is not that of the instruction.
    ArrayTypeMismatch,
    /// Division by zero.
    DivisionByZero,
    /// The next instruction would lie outside the method.
    ProgramCounterOverflow,
    /// The heap cannot hold another object.
    HeapExhausted,
    /// The clock stands before the epoch, or so far after it that the
    /// milliseconds do not fit a long.
    ClockOutOfRange,
}

} // verus!
