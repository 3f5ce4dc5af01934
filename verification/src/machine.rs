//! What the machine does, instruction by instruction.
//!
//! The machine is its classes, its heap, its call stack and what it has
//! printed. One step executes the instruction that the topmost frame stands
//! at. The spec functions of this module say what a step makes of a machine;
//! the interpreter is proved to do exactly that.
//!
//! Two things a step cannot do by itself. It cannot fetch a class that an
//! instruction refers to and the machine does not hold: it then asks for the
//! class by name and leaves the machine as it is. And it cannot read the
//! clock: where the instruction needs the time and none was handed in, it
//! asks for it in the same way.

use crate::call_frame::{
    advanced, local_step, new_frame, pop, pop_int, pop_reference, pushed, with_stack, Flow,
    FrameView,
};
use crate::class::{ClassView, FieldView};
use crate::class_file::constant_pool::{
    pool_class_name, pool_entry, pool_field_ref, pool_method_ref, pool_utf8, ConstantInfoView,
    };
use crate::class_file::MethodAccessFlags;
use crate::error::{ExecError, Feature};
use crate::heap::{
    heap_allocate, heap_array_length, heap_array_store, heap_class_of, heap_get_field,
    heap_new_array, heap_put_field, HeapObjectView, HeapView,
};
use crate::instructions::{ArrayLoadStoreType, ArrayType, Instruction, InvokeKind};
use crate::render::{rendered, RENDER_DEPTH};
use crate::symbols::{table_lookup, MemberKey};
use crate::value::{default_of, JvmValue};
use vstd::prelude::*;

verus! {

/// The machine as contracts see it. The topmost frame is the last.
pub struct MachineView {
    pub classes: Seq<ClassView>,
    pub heap: HeapView,
    pub frames: Seq<FrameView>,
    pub stdout: Seq<u8>,
}

/// How a step ended.
#[derive(Debug)]
pub enum Step {
    /// An instruction was executed; there is more to do.
    Continue,
    /// The last frame has returned, with this result.
    Finished(Option<JvmValue>),
    /// The instruction refers to a class that the machine does not hold.
    /// Nothing was done. Once the class has been loaded, the step can be
    /// taken again.
    NeedClass(String),
    /// The instruction needs the time, and none was handed in. Nothing was
    /// done.
    NeedClock,
}

/// [`Step`] as contracts see it.
pub enum StepView {
    Continue,
    Finished(Option<JvmValue>),
    NeedClass(Seq<char>),
    NeedClock,
}

impl View for Step {
    type V = StepView;

    open spec fn view(&self) -> StepView {
        match self {
            Step::Continue => StepView::Continue,
            Step::Finished(value) => StepView::Finished(*value),
            Step::NeedClass(name) => StepView::NeedClass(name@),
            Step::NeedClock => StepView::NeedClock,
        }
    }
}

/// What the clock said: the milliseconds since the epoch, or `None` where
/// the clock stands before the epoch.
pub type ClockReading = Option<u128>;

/// The number of the first class from `from` on that has the given name.
pub open spec fn find_class_from(classes: Seq<ClassView>, name: Seq<char>, from: int) -> Option<
    usize,
>
    decreases classes.len() - from,
{
    if from < 0 || from >= classes.len() {
        None
    } else if classes[from].name == name {
        Some(from as usize)
    } else {
        find_class_from(classes, name, from + 1)
    }
}

/// What [`find_class_from`] finds is the first class of the name from `from`
/// on; it finds none only where there is none.
pub proof fn lemma_find_class_from(classes: Seq<ClassView>, name: Seq<char>, from: int)
    requires
        0 <= from,
        classes.len() <= usize::MAX,
    ensures
        match find_class_from(classes, name, from) {
            Some(number) => from <= number < classes.len() && classes[number as int].name == name
                && forall|k: int| from <= k < number ==> (#[trigger] classes[k]).name != name,
            None => forall|k: int|
                from <= k < classes.len() ==> (#[trigger] classes[k]).name != name,
        },
    decreases classes.len() - from,
{
    if from < classes.len() && classes[from].name != name {
        lemma_find_class_from(classes, name, from + 1);
    }
}

/// No two classes of the registry have the same name.
pub open spec fn names_unique(classes: Seq<ClassView>) -> bool {
    forall|i: int, j: int|
        0 <= i < classes.len() && 0 <= j < classes.len() && (#[trigger] classes[i]).name == (
        #[trigger] classes[j]).name ==> i == j
}

/// The number of the class that has the given name.
pub open spec fn find_class(classes: Seq<ClassView>, name: Seq<char>) -> Option<usize> {
    find_class_from(classes, name, 0)
}

/// The method `key` as class `class` has it: its own if it declares one,
/// else that of the nearest super class that does. The answer is the number
/// of the declaring class and the place of the method in it.
pub open spec fn lookup_method(classes: Seq<ClassView>, class: usize, key: MemberKey) -> Option<
    (usize, usize),
>
    decreases class,
{
    if class >= classes.len() {
        None
    } else {
        match table_lookup(classes[class as int].methods.places, key) {
            Some(place) => Some((class, place)),
            None => match classes[class as int].super_class {
                Some(parent) => if parent < class {
                    lookup_method(classes, parent, key)
                } else {
                    None
                },
                None => None,
            },
        }
    }
}

/// What a class reference of the running class leads to.
pub enum Resolved {
    /// The class with this number.
    Class(usize),
    /// A class of this name, which the machine does not hold.
    Missing(Seq<char>),
}

/// The class that the class entry `class_index` of the running class refers
/// to: the running class itself if the index is that of its own entry, else
/// the class of the name that the entry gives.
pub open spec fn resolve_class(classes: Seq<ClassView>, running: usize, class_index: u16) -> Result<
    Resolved,
    ExecError,
> {
    if class_index == classes[running as int].class_file.this_class {
        Ok(Resolved::Class(running))
    } else {
        match pool_class_name(classes[running as int].class_file.constant_pool, class_index) {
            Err(e) => Err(ExecError::BadConstantPoolEntry(e)),
            Ok(name) => match find_class(classes, name) {
                Some(number) => Ok(Resolved::Class(number)),
                None => Ok(Resolved::Missing(name)),
            },
        }
    }
}

/// The code of the method that the frame runs.
pub open spec fn code_of(classes: Seq<ClassView>, frame: FrameView) -> Seq<Instruction> {
    classes[frame.class as int].methods.methods[frame.method as int].body->Some_0.code
}

/// The constant pool of the class that the frame runs in.
pub open spec fn pool_of(classes: Seq<ClassView>, frame: FrameView) -> Seq<ConstantInfoView> {
    classes[frame.class as int].class_file.constant_pool
}

/// The frame runs a method that the machine holds, and that has code.
pub open spec fn frame_wf(classes: Seq<ClassView>, frame: FrameView) -> bool {
    &&& frame.class < classes.len()
    &&& frame.method < classes[frame.class as int].methods.methods.len()
    &&& classes[frame.class as int].methods.methods[frame.method as int].body is Some
}

/// The machine after an instruction of the topmost frame is done: the frame,
/// moved on to its next instruction, is back on the call stack.
pub open spec fn completed(machine: MachineView, frame: FrameView) -> Result<
    (MachineView, StepView),
    ExecError,
> {
    match advanced(frame.pc, Flow::Next, code_of(machine.classes, frame).len() as int) {
        Err(e) => Err(e),
        Ok(pc) => Ok(
            (
                MachineView { frames: machine.frames.push(FrameView { pc, ..frame }), ..machine },
                StepView::Continue,
            ),
        ),
    }
}

/// The machine as it is left when a step asks for something: the frame is
/// back on the call stack, untouched.
pub open spec fn suspended(machine: MachineView, frame: FrameView, step: StepView) -> Result<
    (MachineView, StepView),
    ExecError,
> {
    Ok((MachineView { frames: machine.frames.push(frame), ..machine }, step))
}

/// `ldc`: pushes the string constant with the given index.
pub open spec fn step_ldc(
    machine: MachineView,
    frame: FrameView,
    instruction: Instruction,
    index: u16,
) -> Result<(MachineView, StepView), ExecError> {
    match pool_entry(pool_of(machine.classes, frame), index) {
        Some(ConstantInfoView::String(string)) => match pool_utf8(
            pool_of(machine.classes, frame),
            string.string_index,
        ) {
            Err(e) => Err(ExecError::BadConstantPoolEntry(e)),
            Ok(_) => completed(
                machine,
                pushed(
                    frame,
                    JvmValue::StringConst { class: frame.class, index: string.string_index },
                ),
            ),
        },
        _ => Err(ExecError::Unsupported(Feature::Instruction(instruction))),
    }
}

/// `newarray`: pops a length and pushes a reference to a new array of that
/// many zero cells of the element type.
pub open spec fn step_newarray(machine: MachineView, frame: FrameView, atype: ArrayType) -> Result<
    (MachineView, StepView),
    ExecError,
> {
    match pop_int(frame.stack) {
        Err(e) => Err(e),
        Ok((length, rest)) => match heap_new_array(machine.heap, atype, length) {
            Err(e) => Err(e),
            Ok((heap, reference)) => completed(
                MachineView { heap, ..machine },
                with_stack(frame, rest.push(JvmValue::Reference(reference))),
            ),
        },
    }
}

/// `arraylength`: pops a reference to an array and pushes its length.
pub open spec fn step_arraylength(machine: MachineView, frame: FrameView) -> Result<
    (MachineView, StepView),
    ExecError,
> {
    match pop_reference(frame.stack) {
        Err(e) => Err(e),
        Ok((reference, rest)) => match heap_array_length(machine.heap, reference) {
            Err(e) => Err(e),
            Ok(length) => completed(machine, with_stack(frame, rest.push(JvmValue::Int(length)))),
        },
    }
}

/// `arraystore`: pops a value, an index and a reference to an array, and
/// stores the value at the index.
pub open spec fn step_arraystore(
    machine: MachineView,
    frame: FrameView,
    data_type: ArrayLoadStoreType,
) -> Result<(MachineView, StepView), ExecError> {
    match pop(frame.stack) {
        Err(e) => Err(e),
        Ok((value, rest)) => match pop_int(rest) {
            Err(e) => Err(e),
            Ok((index, rest)) => match pop_reference(rest) {
                Err(e) => Err(e),
                Ok((reference, rest)) => match heap_array_store(
                    machine.heap,
                    reference,
                    data_type,
                    index,
                    value,
                ) {
                    Err(e) => Err(e),
                    Ok(heap) => completed(MachineView { heap, ..machine }, with_stack(frame, rest)),
                },
            },
        },
    }
}

/// The cells of a new object: the default value of each field.
pub open spec fn default_cells(fields: Seq<FieldView>) -> Seq<JvmValue> {
    Seq::new(fields.len(), |i: int| default_of(fields[i].descriptor))
}

/// `new`: pushes a reference to a new object of the class that the class
/// entry refers to, each field at its default value.
pub open spec fn step_new(machine: MachineView, frame: FrameView, index: u16) -> Result<
    (MachineView, StepView),
    ExecError,
> {
    match resolve_class(machine.classes, frame.class, index) {
        Err(e) => Err(e),
        Ok(Resolved::Missing(name)) => suspended(machine, frame, StepView::NeedClass(name)),
        Ok(Resolved::Class(class)) => match heap_allocate(
            machine.heap,
            HeapObjectView::Object {
                class,
                fields: default_cells(machine.classes[class as int].layout.fields),
            },
        ) {
            Err(e) => Err(e),
            Ok((heap, reference)) => completed(
                MachineView { heap, ..machine },
                pushed(frame, JvmValue::Reference(reference)),
            ),
        },
    }
}

/// The field that a field reference of the running class names, with the
/// class that owns it.
pub open spec fn resolve_field(classes: Seq<ClassView>, frame: FrameView, index: u16) -> Result<
    (Resolved, MemberKey),
    ExecError,
> {
    match pool_field_ref(pool_of(classes, frame), index) {
        Err(e) => Err(ExecError::BadConstantPoolEntry(e)),
        Ok(member) => match resolve_class(classes, frame.class, member.class_index) {
            Err(e) => Err(e),
            Ok(resolved) => Ok((resolved, (member.name, member.descriptor))),
        },
    }
}

/// `getfield`: pops a reference to an object and pushes what its field
/// holds. The field is found by the ordinal that the class named in the
/// field reference gives it.
pub open spec fn step_getfield(machine: MachineView, frame: FrameView, index: u16) -> Result<
    (MachineView, StepView),
    ExecError,
> {
    match resolve_field(machine.classes, frame, index) {
        Err(e) => Err(e),
        Ok((Resolved::Missing(name), _)) => suspended(machine, frame, StepView::NeedClass(name)),
        Ok((Resolved::Class(class), key)) => match machine.classes[class as int].field_ordinal(
            key,
        ) {
            None => Err(ExecError::NoSuchField),
            Some(ordinal) => match pop_reference(frame.stack) {
                Err(e) => Err(e),
                Ok((reference, rest)) => match heap_get_field(machine.heap, reference, ordinal) {
                    Err(e) => Err(e),
                    Ok(value) => completed(machine, with_stack(frame, rest.push(value))),
                },
            },
        },
    }
}

/// `putfield`: pops a value and a reference to an object, and writes the
/// value to the field.
pub open spec fn step_putfield(machine: MachineView, frame: FrameView, index: u16) -> Result<
    (MachineView, StepView),
    ExecError,
> {
    match resolve_field(machine.classes, frame, index) {
        Err(e) => Err(e),
        Ok((Resolved::Missing(name), _)) => suspended(machine, frame, StepView::NeedClass(name)),
        Ok((Resolved::Class(class), key)) => match machine.classes[class as int].field_ordinal(
            key,
        ) {
            None => Err(ExecError::NoSuchField),
            Some(ordinal) => match pop(frame.stack) {
                Err(e) => Err(e),
                Ok((value, rest)) => match pop_reference(rest) {
                    Err(e) => Err(e),
                    Ok((reference, rest)) => match heap_put_field(
                        machine.heap,
                        reference,
                        ordinal,
                        value,
                    ) {
                        Err(e) => Err(e),
                        Ok(heap) => completed(
                            MachineView { heap, ..machine },
                            with_stack(frame, rest),
                        ),
                    },
                },
            },
        },
    }
}

/// `getstatic`: pushes what the static field holds.
pub open spec fn step_getstatic(machine: MachineView, frame: FrameView, index: u16) -> Result<
    (MachineView, StepView),
    ExecError,
> {
    match resolve_field(machine.classes, frame, index) {
        Err(e) => Err(e),
        Ok((Resolved::Missing(name), _)) => suspended(machine, frame, StepView::NeedClass(name)),
        Ok((Resolved::Class(class), key)) => match machine.classes[class as int].static_field(
            key,
        ) {
            None => Err(ExecError::NoSuchField),
            Some(value) => completed(machine, pushed(frame, value)),
        },
    }
}

/// `putstatic`: pops a value and writes it to the static field.
pub open spec fn step_putstatic(machine: MachineView, frame: FrameView, index: u16) -> Result<
    (MachineView, StepView),
    ExecError,
> {
    match resolve_field(machine.classes, frame, index) {
        Err(e) => Err(e),
        Ok((Resolved::Missing(name), _)) => suspended(machine, frame, StepView::NeedClass(name)),
        Ok((Resolved::Class(class), key)) => if machine.classes[class as int].static_field(key)
            is None {
            Err(ExecError::NoSuchField)
        } else {
            match pop(frame.stack) {
                Err(e) => Err(e),
                Ok((value, rest)) => completed(
                    MachineView {
                        classes: machine.classes.update(
                            class as int,
                            machine.classes[class as int].with_static_field(key, value),
                        ),
                        ..machine
                    },
                    with_stack(frame, rest),
                ),
            }
        },
    }
}

/// The value that `currentTimeMillis` pushes for a reading of the clock.
pub open spec fn clock_value(reading: ClockReading) -> Result<JvmValue, ExecError> {
    match reading {
        Some(millis) => if millis <= i64::MAX {
            Ok(JvmValue::Long(millis as i64))
        } else {
            Err(ExecError::ClockOutOfRange)
        },
        None => Err(ExecError::ClockOutOfRange),
    }
}

/// The native methods that the machine itself stands in for.
#[derive(Clone, Copy, Debug, PartialEq, Eq, Structural)]
pub enum Intrinsic {
    RegisterNatives,
    Print,
    CurrentTimeMillis,
}

/// The intrinsic of the given name.
pub open spec fn intrinsic_named(name: Seq<char>) -> Option<Intrinsic> {
    if name == "registerNatives"@ {
        Some(Intrinsic::RegisterNatives)
    } else if name == "print"@ {
        Some(Intrinsic::Print)
    } else if name == "currentTimeMillis"@ {
        Some(Intrinsic::CurrentTimeMillis)
    } else {
        None
    }
}

/// The call of an intrinsic: `registerNatives` does nothing, `print` pops a
/// value and prints it, `currentTimeMillis` pushes the time.
pub open spec fn step_native(
    machine: MachineView,
    frame: FrameView,
    intrinsic: Intrinsic,
    clock: Option<ClockReading>,
) -> Result<(MachineView, StepView), ExecError> {
    match intrinsic {
        Intrinsic::RegisterNatives => completed(machine, frame),
        Intrinsic::Print => match pop(frame.stack) {
            Err(e) => Err(e),
            Ok((value, rest)) => match rendered(
                machine.classes,
                machine.heap,
                value,
                RENDER_DEPTH as nat,
            ) {
                Err(e) => Err(e),
                Ok(text) => completed(
                    MachineView { stdout: machine.stdout + text, ..machine },
                    with_stack(frame, rest),
                ),
            },
        },
        Intrinsic::CurrentTimeMillis => match clock {
            None => suspended(machine, frame, StepView::NeedClock),
            Some(reading) => match clock_value(reading) {
                Err(e) => Err(e),
                Ok(value) => completed(machine, pushed(frame, value)),
            },
        },
    }
}

/// The call of a method with code: the topmost `count` values of the
/// caller's stack become the first locals of a new frame, in their order, and
/// leave the caller's stack; the caller is moved on to its next instruction.
pub open spec fn step_call(
    machine: MachineView,
    frame: FrameView,
    owner: usize,
    place: usize,
    count: int,
) -> Result<(MachineView, StepView), ExecError> {
    if frame.stack.len() < count {
        Err(ExecError::StackUnderflow)
    } else {
        match new_frame(
            owner,
            place,
            machine.classes[owner as int].methods.methods[place as int],
            frame.stack.subrange(frame.stack.len() - count, frame.stack.len() as int),
        ) {
            Err(e) => Err(e),
            Ok(callee) => match completed(
                machine,
                with_stack(frame, frame.stack.subrange(0, frame.stack.len() - count)),
            ) {
                Err(e) => Err(e),
                Ok((after, step)) => Ok(
                    (MachineView { frames: after.frames.push(callee), ..after }, step),
                ),
            },
        }
    }
}

/// The method that a virtual call runs: the one that the class of the
/// receiver has under `key`. The receiver lies under the `parameters`
/// arguments on the stack.
pub open spec fn virtual_target(
    machine: MachineView,
    frame: FrameView,
    key: MemberKey,
    parameters: int,
) -> Result<(usize, usize), ExecError> {
    if frame.stack.len() < parameters + 1 {
        Err(ExecError::StackUnderflow)
    } else {
        match frame.stack[frame.stack.len() - parameters - 1] {
            JvmValue::Reference(reference) => match heap_class_of(machine.heap, reference) {
                Err(e) => Err(e),
                Ok(class) => match lookup_method(machine.classes, class, key) {
                    None => Err(ExecError::NoSuchMethod),
                    Some(target) => Ok(target),
                },
            },
            _ => Err(ExecError::TypeMismatch),
        }
    }
}

/// `invoke`.
///
/// The method is looked up in the class that the method reference names and
/// then up its super classes. A static call of a native method that has the
/// name of an intrinsic runs the intrinsic; any other static call runs the
/// method found, on the arguments. A special call runs the method found, on
/// the receiver and the arguments. A virtual call does the same if the
/// method found is private; else it looks the method up anew, from the class
/// of the receiver.
pub open spec fn step_invoke(
    machine: MachineView,
    frame: FrameView,
    instruction: Instruction,
    kind: InvokeKind,
    index: u16,
    clock: Option<ClockReading>,
) -> Result<(MachineView, StepView), ExecError> {
    match pool_method_ref(pool_of(machine.classes, frame), index) {
        Err(e) => Err(ExecError::BadConstantPoolEntry(e)),
        Ok(member) => match resolve_class(machine.classes, frame.class, member.class_index) {
            Err(e) => Err(e),
            Ok(Resolved::Missing(name)) => suspended(machine, frame, StepView::NeedClass(name)),
            Ok(Resolved::Class(class)) => match lookup_method(
                machine.classes,
                class,
                (member.name, member.descriptor),
            ) {
                None => Err(ExecError::NoSuchMethod),
                Some((owner, place)) => {
                    let method = machine.classes[owner as int].methods.methods[place as int];
                    let parameters = method.descriptor.params.len() as int;
                    match kind {
                        InvokeKind::Static => if method.access_flags.has(
                            MethodAccessFlags::NATIVE,
                        ) && intrinsic_named(member.name) is Some {
                            step_native(
                                machine,
                                frame,
                                intrinsic_named(member.name).unwrap(),
                                clock,
                            )
                        } else {
                            step_call(machine, frame, owner, place, parameters)
                        },
                        InvokeKind::Special => step_call(
                            machine,
                            frame,
                            owner,
                            place,
                            parameters + 1,
                        ),
                        InvokeKind::Virtual => if method.access_flags.has(
                            MethodAccessFlags::PRIVATE,
                        ) {
                            step_call(machine, frame, owner, place, parameters + 1)
                        } else {
                            match virtual_target(
                                machine,
                                frame,
                                (member.name, member.descriptor),
                                parameters,
                            ) {
                                Err(e) => Err(e),
                                Ok((target_owner, target_place)) => step_call(
                                    machine,
                                    frame,
                                    target_owner,
                                    target_place,
                                    parameters + 1,
                                ),
                            }
                        },
                        _ => Err(ExecError::Unsupported(Feature::Instruction(instruction))),
                    }
                },
            },
        }
    }
}

/// What an instruction that needs the machine does. `machine` is the
/// machine without its topmost frame, `frame` that frame.
pub open spec fn machine_instruction(
    machine: MachineView,
    frame: FrameView,
    instruction: Instruction,
    clock: Option<ClockReading>,
) -> Result<(MachineView, StepView), ExecError> {
    match instruction {
        Instruction::ldc { index } => step_ldc(machine, frame, instruction, index),
        Instruction::newarray { atype } => step_newarray(machine, frame, atype),
        Instruction::arraylength => step_arraylength(machine, frame),
        Instruction::arraystore { data_type } => step_arraystore(machine, frame, data_type),
        Instruction::new { index } => step_new(machine, frame, index),
        Instruction::getfield { index } => step_getfield(machine, frame, index),
        Instruction::putfield { index } => step_putfield(machine, frame, index),
        Instruction::getstatic { index } => step_getstatic(machine, frame, index),
        Instruction::putstatic { index } => step_putstatic(machine, frame, index),
        Instruction::invoke { kind, index } => step_invoke(
            machine,
            frame,
            instruction,
            kind,
            index,
            clock,
        ),
        _ => Err(ExecError::Unsupported(Feature::Instruction(instruction))),
    }
}

/// The machine after its topmost frame has returned: the result, if there is
/// one, lies on the stack of the caller; without a caller the run is over.
/// `machine` is the machine without the frame that returned.
pub open spec fn step_returned(machine: MachineView, value: Option<JvmValue>) -> Result<
    (MachineView, StepView),
    ExecError,
> {
    if machine.frames.len() == 0 {
        Ok((machine, StepView::Finished(value)))
    } else {
        match value {
            None => Ok((machine, StepView::Continue)),
            Some(result) => Ok(
                (
                    MachineView {
                        frames: machine.frames.drop_last().push(
                            pushed(machine.frames.last(), result),
                        ),
                        ..machine
                    },
                    StepView::Continue,
                ),
            ),
        }
    }
}

/// What the instruction at which `frame` stands does. `machine` is the
/// machine without its topmost frame, `frame` that frame.
pub open spec fn frame_step(
    machine: MachineView,
    frame: FrameView,
    clock: Option<ClockReading>,
) -> Result<(MachineView, StepView), ExecError> {
    let code = code_of(machine.classes, frame);
    if frame.pc >= code.len() {
        Err(ExecError::ProgramCounterOverflow)
    } else {
        match local_step(frame, code[frame.pc as int]) {
            Err(e) => Err(e),
            Ok((_, Flow::Machine)) => machine_instruction(
                machine,
                frame,
                code[frame.pc as int],
                clock,
            ),
            Ok((_, Flow::Return(value))) => step_returned(machine, value),
            Ok((after, flow)) => match advanced(frame.pc, flow, code.len() as int) {
                Err(e) => Err(e),
                Ok(pc) => Ok(
                    (
                        MachineView {
                            frames: machine.frames.push(FrameView { pc, ..after }),
                            ..machine
                        },
                        StepView::Continue,
                    ),
                ),
            },
        }
    }
}

/// One step of the machine: what the instruction does at which the topmost
/// frame stands. `clock` is the reading of the clock, if one was taken.
pub open spec fn machine_step(machine: MachineView, clock: Option<ClockReading>) -> Result<
    (MachineView, StepView),
    ExecError,
> {
    if machine.frames.len() == 0 {
        Err(ExecError::NoFrame)
    } else {
        frame_step(
            MachineView { frames: machine.frames.drop_last(), ..machine },
            machine.frames.last(),
            clock,
        )
    }
}

/// `newarray` followed by `arraylength` gives the length back, for every
/// element type: with a length that is not negative on top of the stack, the
/// two instructions leave the stack as it was, with that length on top. The
/// reference in between is not null.
pub proof fn lemma_newarray_then_arraylength(
    machine: MachineView,
    frame: FrameView,
    atype: ArrayType,
    length: i32,
)
    requires
        length >= 0,
        frame.stack.len() > 0,
        frame.stack.last() == JvmValue::Int(length),
        machine.heap.len() < usize::MAX,
        frame.pc + 2 < code_of(machine.classes, frame).len(),
        frame.pc + 2 <= usize::MAX,
    ensures
        ({
            let first = step_newarray(machine, frame, atype);
            let between = first->Ok_0.0.frames.last();
            let second = step_arraylength(
                MachineView { frames: first->Ok_0.0.frames.drop_last(), ..first->Ok_0.0 },
                between,
            );
            &&& first is Ok
            &&& between.stack.len() == frame.stack.len()
            &&& between.stack.last() matches JvmValue::Reference(reference) && reference != 0
            &&& second is Ok
            &&& second->Ok_0.0.frames.last().stack == frame.stack
            &&& second->Ok_0.0.frames.last().pc == frame.pc + 2
        }),
{
    let rest = frame.stack.drop_last();
    let (heap, reference) = heap_new_array(machine.heap, atype, length).unwrap();
    let lifted = with_stack(frame, rest.push(JvmValue::Reference(reference)));
    assert(code_of(machine.classes, lifted) == code_of(machine.classes, frame));
    let first = step_newarray(machine, frame, atype);
    let after = first->Ok_0.0;
    assert(after.frames.last() == (FrameView { pc: (frame.pc + 1) as usize, ..lifted }));
    assert(after.frames.drop_last() =~= machine.frames);
    let between = after.frames.last();
    assert(between.stack.drop_last() =~= rest);
    assert(rest.push(JvmValue::Int(length)) =~= frame.stack);
    assert(code_of(machine.classes, between) == code_of(machine.classes, frame));
}

/// The same through whole steps of the machine: where the topmost frame
/// stands at `newarray` with `arraylength` after it, and a length that is not
/// negative lies on top of its stack, two steps leave that stack as it was
/// and the frame two instructions on, whatever the element type.
pub proof fn lemma_two_steps_give_the_length(machine: MachineView, atype: ArrayType, length: i32)
    requires
        machine.frames.len() > 0,
        length >= 0,
        machine.frames.last().stack.len() > 0,
        machine.frames.last().stack.last() == JvmValue::Int(length),
        machine.heap.len() < usize::MAX,
        machine.frames.last().pc + 2 < code_of(machine.classes, machine.frames.last()).len(),
        machine.frames.last().pc + 2 <= usize::MAX,
        code_of(machine.classes, machine.frames.last())[machine.frames.last().pc as int]
            == (Instruction::newarray { atype }),
        code_of(machine.classes, machine.frames.last())[machine.frames.last().pc + 1]
            == Instruction::arraylength,
    ensures
        ({
            let first = machine_step(machine, None);
            let second = machine_step(first->Ok_0.0, None);
            &&& first is Ok
            &&& first->Ok_0.1 is Continue
            &&& second is Ok
            &&& second->Ok_0.1 is Continue
            &&& second->Ok_0.0.frames.len() == machine.frames.len()
            &&& second->Ok_0.0.frames.last().stack == machine.frames.last().stack
            &&& second->Ok_0.0.frames.last().pc == machine.frames.last().pc + 2
            &&& second->Ok_0.0.stdout == machine.stdout
            &&& second->Ok_0.0.classes == machine.classes
        }),
{
    let frame = machine.frames.last();
    let rest = MachineView { frames: machine.frames.drop_last(), ..machine };
    lemma_newarray_then_arraylength(rest, frame, atype, length);
    let first = step_newarray(rest, frame, atype);
    assert(machine_step(machine, None) == first);
    let after = first->Ok_0.0;
    let between = after.frames.last();
    assert(after.frames =~= rest.frames.push(between));
    assert(after.frames.drop_last() =~= rest.frames);
    assert(code_of(after.classes, between) == code_of(machine.classes, frame));
    let second = step_arraylength(MachineView { frames: after.frames.drop_last(), ..after }, between);
    assert(machine_step(after, None) == second);
}

/// What `print` does with a value that has a rendering: the text is added to
/// what the machine has printed, the value leaves the stack, and nothing else
/// changes but the program counter.
pub proof fn lemma_print_appends(
    machine: MachineView,
    frame: FrameView,
    clock: Option<ClockReading>,
)
    requires
        frame.stack.len() > 0,
        rendered(machine.classes, machine.heap, frame.stack.last(), RENDER_DEPTH as nat) is Ok,
        frame.pc + 1 < code_of(machine.classes, frame).len(),
        frame.pc + 1 <= usize::MAX,
    ensures
        ({
            let step = step_native(machine, frame, Intrinsic::Print, clock);
            let text = rendered(
                machine.classes,
                machine.heap,
                frame.stack.last(),
                RENDER_DEPTH as nat,
            )->Ok_0;
            &&& step is Ok
            &&& step->Ok_0.1 is Continue
            &&& step->Ok_0.0.stdout == machine.stdout + text
            &&& step->Ok_0.0.heap == machine.heap
            &&& step->Ok_0.0.classes == machine.classes
            &&& step->Ok_0.0.frames == machine.frames.push(
                FrameView {
                    stack: frame.stack.drop_last(),
                    pc: (frame.pc + 1) as usize,
                    ..frame
                },
            )
        }),
{
    let popped = with_stack(frame, frame.stack.drop_last());
    assert(code_of(machine.classes, popped) == code_of(machine.classes, frame));
}

/// How a run ended.
#[derive(Debug)]
pub enum Run {
    /// The call stack is back at the depth that the run was to reach: the
    /// call that was started has returned to its caller.
    Returned,
    /// The last frame has returned, with this result.
    Finished(Option<JvmValue>),
    /// An instruction refers to a class that the machine does not hold.
    NeedClass(String),
    /// An instruction needs the time.
    NeedClock,
    /// The run has taken as many steps as it was allowed.
    OutOfFuel,
}

/// [`Run`] as contracts see it.
pub enum RunView {
    Returned,
    Finished(Option<JvmValue>),
    NeedClass(Seq<char>),
    NeedClock,
    OutOfFuel,
}

impl View for Run {
    type V = RunView;

    open spec fn view(&self) -> RunView {
        match self {
            Run::Returned => RunView::Returned,
            Run::Finished(value) => RunView::Finished(*value),
            Run::NeedClass(name) => RunView::NeedClass(name@),
            Run::NeedClock => RunView::NeedClock,
            Run::OutOfFuel => RunView::OutOfFuel,
        }
    }
}

/// One step of the machine without a reading of the clock.
#[verifier::opaque]
pub open spec fn unclocked_step(machine: MachineView) -> Result<(MachineView, StepView), ExecError> {
    machine_step(machine, None)
}

/// A run of the machine: step after step, without a reading of the clock,
/// for as long as the call stack is deeper than `floor` frames and fuel is
/// left. The run ends before that where a step fails, where the last frame
/// returns, and where a step asks for a class or for the time.
pub open spec fn machine_run(machine: MachineView, floor: int, fuel: nat) -> Result<
    (MachineView, RunView),
    ExecError,
>
    decreases fuel,
{
    if machine.frames.len() <= floor {
        Ok((machine, RunView::Returned))
    } else if fuel == 0 {
        Ok((machine, RunView::OutOfFuel))
    } else {
        match unclocked_step(machine) {
            Err(e) => Err(e),
            Ok((after, StepView::Continue)) => machine_run(after, floor, (fuel - 1) as nat),
            Ok((after, StepView::Finished(value))) => Ok((after, RunView::Finished(value))),
            Ok((after, StepView::NeedClass(name))) => Ok((after, RunView::NeedClass(name))),
            Ok((after, StepView::NeedClock)) => Ok((after, RunView::NeedClock)),
        }
    }
}

/// A method that a class declares itself is the one that is found from that
/// class: a method of a super class with the same name and descriptor is
/// overridden.
pub proof fn lemma_own_method_found(classes: Seq<ClassView>, class: usize, key: MemberKey)
    requires
        class < classes.len(),
        classes[class as int].methods.places.contains_key(key),
    ensures
        lookup_method(classes, class, key) == Some(
            (class, classes[class as int].methods.places[key]),
        ),
{
}

/// A virtual call on a receiver whose class declares the method runs that
/// method, whatever class the method reference names.
pub proof fn lemma_virtual_call_selects_override(
    machine: MachineView,
    frame: FrameView,
    key: MemberKey,
    parameters: int,
    reference: usize,
    class: usize,
)
    requires
        0 <= parameters < frame.stack.len(),
        frame.stack[frame.stack.len() - parameters - 1] == JvmValue::Reference(reference),
        heap_class_of(machine.heap, reference) == Ok::<usize, ExecError>(class),
        class < machine.classes.len(),
        machine.classes[class as int].methods.places.contains_key(key),
    ensures
        virtual_target(machine, frame, key, parameters) == Ok::<(usize, usize), ExecError>(
            (class, machine.classes[class as int].methods.places[key]),
        ),
{
    lemma_own_method_found(machine.classes, class, key);
}

} // verus!
