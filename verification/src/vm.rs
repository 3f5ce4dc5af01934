//! The virtual machine.
//!
//! The machine holds the classes that have been loaded, the heap, the call
//! stack and what the program has printed. It does nothing by itself: its
//! owner hands it class files, starts a method, and then takes step after
//! step until the method has returned. Where a step needs a class that the
//! machine does not hold, it says so, and the owner loads the class and goes
//! on.

use crate::call_frame::{new_frame, CallFrame, Flow, FrameView};
use crate::class::{
    class_wf, classes_view, linked, Class, ClassView, LinkError, LinkErrorView, Method,
};
use crate::class_file::constant_pool::{pool_class_name, ConstantInfo};
use crate::class_file::{ClassFile, ClassFileView, MethodAccessFlags};
use crate::error::{ExecError, Feature};
use crate::heap::{heap_wf, Heap};
use crate::instructions::{ArrayLoadStoreType, ArrayType, Instruction, InvokeKind};
use crate::machine::{
    clock_value, code_of, completed, default_cells, find_class, find_class_from, frame_wf,
    intrinsic_named, lemma_find_class_from, lookup_method, machine_instruction, machine_run,
    machine_step,
    names_unique, resolve_class, resolve_field, step_arraylength, step_arraystore, step_call,
    step_getfield, step_getstatic, step_invoke, step_ldc, step_native, step_new, step_newarray,
    step_putfield, step_putstatic, step_returned, suspended, unclocked_step, virtual_target,
    ClockReading,
    Intrinsic, MachineView, Resolved, Run, RunView, Step, StepView,
};
use crate::reader::{class_file_at, ClassReader, ReadError};
use crate::render::render;
use crate::symbols::{table_lookup, MemberKey};
use crate::text::str_eq;
use crate::value::{default_value, JvmValue};
use std::time::{Duration, SystemTime};
use vstd::prelude::*;
use vstd::slice::slice_subrange;

verus! {

/// `std::time::SystemTime`, carried through as an opaque value: nothing is
/// claimed of what a time holds.
#[verifier::external_type_specification]
#[verifier::external_body]
pub struct ExSystemTime(SystemTime);

/// Where the machine gets the time from.
pub trait TimeProvider {
    fn system_time(&self) -> SystemTime;
}

/// The clock of the system.
pub struct DefaultTimeProvider;

/// `SystemTime::now`: the time of the system clock, whatever it is.
#[verifier::external_body]
fn system_now() -> SystemTime {
    SystemTime::now()
}

/// `SystemTime::duration_since`, taken from the epoch: the time that has
/// passed since the epoch, or `None` for a time before it.
#[verifier::external_body]
fn since_epoch(time: &SystemTime) -> Option<Duration> {
    time.duration_since(SystemTime::UNIX_EPOCH).ok()
}

/// `Duration::as_millis`: the whole milliseconds of a duration.
#[verifier::external_body]
fn whole_millis(duration: &Duration) -> u128 {
    duration.as_millis()
}

impl TimeProvider for DefaultTimeProvider {
    fn system_time(&self) -> SystemTime {
        system_now()
    }
}

/// What a row of frames holds.
pub open spec fn frames_view(frames: Seq<CallFrame>) -> Seq<FrameView> {
    frames.map_values(|f: CallFrame| f@)
}

/// The machine is in order: every class is, and stands after its super
/// class in the registry; no two classes have the same name; no array is too
/// long; every frame runs a method that the machine holds.
pub open spec fn machine_wf(machine: MachineView) -> bool {
    &&& names_unique(machine.classes)
    &&& forall|i: int|
        0 <= i < machine.classes.len() ==> class_wf(#[trigger] machine.classes[i])
            && (machine.classes[i].super_class matches Some(parent) ==> parent < i)
    &&& heap_wf(machine.heap)
    &&& forall|j: int|
        0 <= j < machine.frames.len() ==> frame_wf(machine.classes, #[trigger] machine.frames[j])
}

/// A virtual machine.
pub struct Vm<T: TimeProvider> {
    classes: Vec<Class>,
    heap: Heap,
    frames: Vec<CallFrame>,
    stdout: Vec<u8>,
    time: T,
}

impl<T: TimeProvider> View for Vm<T> {
    type V = MachineView;

    closed spec fn view(&self) -> MachineView {
        MachineView {
            classes: classes_view(self.classes@),
            heap: self.heap@,
            frames: frames_view(self.frames@),
            stdout: self.stdout@,
        }
    }
}

/// What a class reference led to.
pub enum Resolution {
    Class(usize),
    Missing(String),
}

impl View for Resolution {
    type V = Resolved;

    open spec fn view(&self) -> Resolved {
        match self {
            Resolution::Class(number) => Resolved::Class(*number),
            Resolution::Missing(name) => Resolved::Missing(name@),
        }
    }
}

impl Vm<DefaultTimeProvider> {
    /// A machine without classes, objects or frames, that has printed
    /// nothing and tells the time by the clock of the system.
    pub fn new() -> (r: Vm<DefaultTimeProvider>)
        ensures
            r.wf(),
            r@.classes.len() == 0,
            r@.heap.len() == 0,
            r@.frames.len() == 0,
            r@.stdout.len() == 0,
    {
        Vm {
            classes: Vec::new(),
            heap: Heap::new(),
            frames: Vec::new(),
            stdout: Vec::new(),
            time: DefaultTimeProvider,
        }
    }
}

impl<T: TimeProvider> Vm<T> {
    /// The machine is in order.
    pub closed spec fn wf(&self) -> bool {
        machine_wf(self@) && self.heap.wf()
    }

    /// The same machine with another clock.
    pub fn with_time_provider<U: TimeProvider>(self, time_provider: U) -> (r: Vm<U>)
        requires
            self.wf(),
        ensures
            r.wf(),
            r@ == self@,
    {
        Vm {
            classes: self.classes,
            heap: self.heap,
            frames: self.frames,
            stdout: self.stdout,
            time: time_provider,
        }
    }

    /// The number of the class with the given name, if the machine holds
    /// one.
    pub fn find_class(&self, name: &str) -> (r: Option<usize>)
        ensures
            r == find_class(self@.classes, name@),
            r matches Some(number) ==> number < self@.classes.len()
                && self@.classes[number as int].name == name@,
            r is None ==> forall|k: int|
                0 <= k < self@.classes.len() ==> (#[trigger] self@.classes[k]).name != name@,
    {
        proof {
            assert(self@.classes.len() == self.classes.len());
            lemma_find_class_from(self@.classes, name@, 0);
        }
        let mut i: usize = 0;
        while i < self.classes.len()
            invariant
                i <= self.classes.len(),
                find_class(self@.classes, name@) == find_class_from(
                    self@.classes,
                    name@,
                    i as int,
                ),
            decreases self.classes.len() - i,
        {
            assert(self@.classes[i as int] == self.classes[i as int]@);
            if str_eq(self.classes[i].name(), name) {
                return Some(i);
            }
            i = i + 1;
        }
        None
    }

    /// The class with the given number.
    pub fn class(&self, number: usize) -> (r: Option<&Class>)
        requires
            self.wf(),
        ensures
            match r {
                Some(class) => number < self@.classes.len() && class@
                    == self@.classes[number as int] && class.wf(),
                None => number >= self@.classes.len(),
            },
    {
        if number < self.classes.len() {
            assert(self@.classes[number as int] == self.classes[number as int]@);
            Some(&self.classes[number])
        } else {
            None
        }
    }

    /// The number of frames on the call stack.
    pub fn depth(&self) -> (r: usize)
        ensures
            r == self@.frames.len(),
    {
        self.frames.len()
    }

    /// What the program has printed and the owner has not yet taken.
    pub fn stdout(&self) -> (r: &[u8])
        ensures
            r@ == self@.stdout,
    {
        self.stdout.as_slice()
    }

    /// Takes what the program has printed, so that the owner can write it
    /// where it belongs.
    pub fn take_stdout(&mut self) -> (r: Vec<u8>)
        requires
            old(self).wf(),
        ensures
            final(self).wf(),
            r@ == old(self)@.stdout,
            final(self)@ == (MachineView { stdout: Seq::empty(), ..old(self)@ }),
    {
        let mut taken: Vec<u8> = Vec::new();
        std::mem::swap(&mut taken, &mut self.stdout);
        taken
    }

    /// The method `name` with descriptor `descriptor` as class `class` has
    /// it: its own, or that of the nearest super class that declares one.
    pub fn lookup_method(&self, class: usize, name: &str, descriptor: &str) -> (r: Option<
        (usize, usize),
    >)
        requires
            self.wf(),
        ensures
            r == lookup_method(self@.classes, class, (name@, descriptor@)),
            r matches Some((owner, place)) ==> owner < self@.classes.len() && place
                < self@.classes[owner as int].methods.methods.len(),
    {
        let mut current: usize = class;
        loop
            invariant
                self.wf(),
                lookup_method(self@.classes, class, (name@, descriptor@)) == lookup_method(
                    self@.classes,
                    current,
                    (name@, descriptor@),
                ),
            decreases current,
        {
            if current >= self.classes.len() {
                return None;
            }
            assert(self@.classes[current as int] == self.classes[current as int]@);
            match self.classes[current].method_place(name, descriptor) {
                Some(place) => {
                    return Some((current, place));
                },
                None => match self.classes[current].super_class() {
                    Some(parent) => {
                        if parent < current {
                            current = parent;
                        } else {
                            return None;
                        }
                    },
                    None => {
                        return None;
                    },
                },
            }
        }
    }

    /// The class that the class entry `class_index` of class `running`
    /// refers to.
    fn resolve(&self, running: usize, class_index: u16) -> (r: Result<Resolution, ExecError>)
        requires
            self.wf(),
            running < self@.classes.len(),
        ensures
            match r {
                Ok(resolution) => resolve_class(self@.classes, running, class_index) == Ok::<
                    Resolved,
                    ExecError,
                >(resolution@) && (resolution matches Resolution::Class(number) ==> number
                    < self@.classes.len()),
                Err(e) => resolve_class(self@.classes, running, class_index) == Err::<
                    Resolved,
                    ExecError,
                >(e),
            },
    {
        assert(self@.classes[running as int] == self.classes[running as int]@);
        let class = &self.classes[running];
        if class_index == class.index() {
            return Ok(Resolution::Class(running));
        }
        match class.constant_pool().class_name(class_index) {
            Err(e) => Err(ExecError::BadConstantPoolEntry(e)),
            Ok(name) => match self.find_class(name.as_str()) {
                Some(number) => Ok(Resolution::Class(number)),
                None => Ok(Resolution::Missing(name.clone())),
            },
        }
    }

    /// The method that a frame runs.
    fn method_of(&self, frame: &CallFrame) -> (r: &Method)
        requires
            self.wf(),
            frame_wf(self@.classes, frame@),
        ensures
            r@ == self@.classes[frame.class as int].methods.methods[frame.method as int],
            r.body is Some,
            r.body->Some_0.code@ == code_of(self@.classes, frame@),
    {
        assert(self@.classes[frame.class as int] == self.classes[frame.class as int]@);
        self.classes[frame.class].method_at(frame.method)
    }

    /// The number of instructions of the method that a frame runs.
    fn code_length(&self, frame: &CallFrame) -> (r: usize)
        requires
            self.wf(),
            frame_wf(self@.classes, frame@),
        ensures
            r == code_of(self@.classes, frame@).len(),
    {
        match &self.method_of(frame).body {
            Some(body) => body.code.len(),
            None => 0,
        }
    }

    /// Puts a frame whose instruction is done back on the call stack, moved
    /// on to its next instruction.
    fn complete(&mut self, frame: CallFrame) -> (r: Result<Step, ExecError>)
        requires
            old(self).wf(),
            frame_wf(old(self)@.classes, frame@),
        ensures
            final(self).wf(),
            match r {
                Ok(step) => completed(old(self)@, frame@) == Ok::<
                    (MachineView, StepView),
                    ExecError,
                >((final(self)@, step@)),
                Err(e) => completed(old(self)@, frame@) == Err::<
                    (MachineView, StepView),
                    ExecError,
                >(e),
            },
    {
        let mut frame = frame;
        let length = self.code_length(&frame);
        frame.advance(Flow::Next, length)?;
        let ghost view = frame@;
        self.frames.push(frame);
        assert(self@.frames =~= old(self)@.frames.push(view));
        Ok(Step::Continue)
    }

    /// Puts a frame back on the call stack untouched, to ask for something.
    fn suspend(&mut self, frame: CallFrame, step: Step) -> (r: Result<Step, ExecError>)
        requires
            old(self).wf(),
            frame_wf(old(self)@.classes, frame@),
        ensures
            final(self).wf(),
            r is Ok,
            suspended(old(self)@, frame@, step@) == Ok::<(MachineView, StepView), ExecError>(
                (final(self)@, r->Ok_0@),
            ),
    {
        let ghost view = frame@;
        self.frames.push(frame);
        assert(self@.frames =~= old(self)@.frames.push(view));
        Ok(step)
    }

    /// `ldc`.
    fn ldc(&mut self, frame: CallFrame, instruction: Instruction, index: u16) -> (r: Result<
        Step,
        ExecError,
    >)
        requires
            old(self).wf(),
            frame_wf(old(self)@.classes, frame@),
        ensures
            final(self).wf(),
            match r {
                Ok(step) => step_ldc(old(self)@, frame@, instruction, index) == Ok::<
                    (MachineView, StepView),
                    ExecError,
                >((final(self)@, step@)),
                Err(e) => step_ldc(old(self)@, frame@, instruction, index) == Err::<
                    (MachineView, StepView),
                    ExecError,
                >(e),
            },
    {
        let mut frame = frame;
        assert(self@.classes[frame.class as int] == self.classes[frame.class as int]@);
        let pool = self.classes[frame.class].constant_pool();
        let string_index = match pool.get(index) {
            Some(ConstantInfo::String(string)) => string.string_index,
            _ => {
                return Err(ExecError::Unsupported(Feature::Instruction(instruction)));
            },
        };
        match pool.utf8(string_index) {
            Err(e) => Err(ExecError::BadConstantPoolEntry(e)),
            Ok(_) => {
                frame.push(JvmValue::StringConst { class: frame.class, index: string_index });
                self.complete(frame)
            },
        }
    }

    /// `newarray`.
    fn newarray(&mut self, frame: CallFrame, atype: ArrayType) -> (r: Result<Step, ExecError>)
        requires
            old(self).wf(),
            frame_wf(old(self)@.classes, frame@),
        ensures
            final(self).wf(),
            match r {
                Ok(step) => step_newarray(old(self)@, frame@, atype) == Ok::<
                    (MachineView, StepView),
                    ExecError,
                >((final(self)@, step@)),
                Err(e) => step_newarray(old(self)@, frame@, atype) == Err::<
                    (MachineView, StepView),
                    ExecError,
                >(e),
            },
    {
        let mut frame = frame;
        let length = frame.pop_int()?;
        let reference = self.heap.new_array(atype, length)?;
        frame.push(JvmValue::Reference(reference));
        self.complete(frame)
    }

    /// `arraylength`.
    fn arraylength(&mut self, frame: CallFrame) -> (r: Result<Step, ExecError>)
        requires
            old(self).wf(),
            frame_wf(old(self)@.classes, frame@),
        ensures
            final(self).wf(),
            match r {
                Ok(step) => step_arraylength(old(self)@, frame@) == Ok::<
                    (MachineView, StepView),
                    ExecError,
                >((final(self)@, step@)),
                Err(e) => step_arraylength(old(self)@, frame@) == Err::<
                    (MachineView, StepView),
                    ExecError,
                >(e),
            },
    {
        let mut frame = frame;
        let reference = frame.pop_reference()?;
        let length = self.heap.array_length(reference)?;
        frame.push(JvmValue::Int(length));
        self.complete(frame)
    }

    /// `arraystore`.
    fn arraystore(&mut self, frame: CallFrame, data_type: ArrayLoadStoreType) -> (r: Result<
        Step,
        ExecError,
    >)
        requires
            old(self).wf(),
            frame_wf(old(self)@.classes, frame@),
        ensures
            final(self).wf(),
            match r {
                Ok(step) => step_arraystore(old(self)@, frame@, data_type) == Ok::<
                    (MachineView, StepView),
                    ExecError,
                >((final(self)@, step@)),
                Err(e) => step_arraystore(old(self)@, frame@, data_type) == Err::<
                    (MachineView, StepView),
                    ExecError,
                >(e),
            },
    {
        let mut frame = frame;
        let value = frame.pop()?;
        let index = frame.pop_int()?;
        let reference = frame.pop_reference()?;
        self.heap.array_store(reference, data_type, index, value)?;
        self.complete(frame)
    }

    /// The cells of a new object of class `class`.
    fn fresh_cells(&self, class: usize) -> (r: Vec<JvmValue>)
        requires
            self.wf(),
            class < self@.classes.len(),
        ensures
            r@ == default_cells(self@.classes[class as int].layout.fields),
    {
        assert(self@.classes[class as int] == self.classes[class as int]@);
        let fields = self.classes[class].fields();
        let mut cells: Vec<JvmValue> = Vec::new();
        let mut i: usize = 0;
        while i < fields.len()
            invariant
                i <= fields.len(),
                crate::class::fields_view(fields@) == self@.classes[class as int].layout.fields,
                cells@ =~= default_cells(self@.classes[class as int].layout.fields).subrange(
                    0,
                    i as int,
                ),
            decreases fields.len() - i,
        {
            assert(crate::class::fields_view(fields@)[i as int] == fields[i as int]@);
            cells.push(default_value(&fields[i].descriptor.field_type));
            i = i + 1;
        }
        assert(cells@ =~= default_cells(self@.classes[class as int].layout.fields));
        cells
    }

    /// `new`.
    fn new_object(&mut self, frame: CallFrame, index: u16) -> (r: Result<Step, ExecError>)
        requires
            old(self).wf(),
            frame_wf(old(self)@.classes, frame@),
        ensures
            final(self).wf(),
            match r {
                Ok(step) => step_new(old(self)@, frame@, index) == Ok::<
                    (MachineView, StepView),
                    ExecError,
                >((final(self)@, step@)),
                Err(e) => step_new(old(self)@, frame@, index) == Err::<
                    (MachineView, StepView),
                    ExecError,
                >(e),
            },
    {
        let mut frame = frame;
        match self.resolve(frame.class, index)? {
            Resolution::Missing(name) => self.suspend(frame, Step::NeedClass(name)),
            Resolution::Class(class) => {
                let cells = self.fresh_cells(class);
                let reference = self.heap.new_object(class, cells)?;
                frame.push(JvmValue::Reference(reference));
                self.complete(frame)
            },
        }
    }

    /// The field that the field reference `index` of the running class
    /// names: the class that owns it, its name and its descriptor.
    fn resolve_field(&self, frame: &CallFrame, index: u16) -> (r: Result<
        (Resolution, String, String),
        ExecError,
    >)
        requires
            self.wf(),
            frame_wf(self@.classes, frame@),
        ensures
            match r {
                Ok((resolution, name, descriptor)) => resolve_field(
                    self@.classes,
                    frame@,
                    index,
                ) == Ok::<(Resolved, MemberKey), ExecError>(
                    (resolution@, (name@, descriptor@)),
                ) && (resolution matches Resolution::Class(number) ==> number
                    < self@.classes.len()),
                Err(e) => resolve_field(self@.classes, frame@, index) == Err::<
                    (Resolved, MemberKey),
                    ExecError,
                >(e),
            },
    {
        assert(self@.classes[frame.class as int] == self.classes[frame.class as int]@);
        let member = match self.classes[frame.class].constant_pool().field_ref(index) {
            Ok(member) => member,
            Err(e) => {
                return Err(ExecError::BadConstantPoolEntry(e));
            },
        };
        let resolution = self.resolve(frame.class, member.class_index)?;
        Ok((resolution, member.name.clone(), member.descriptor.clone()))
    }

    /// `getfield`.
    fn getfield(&mut self, frame: CallFrame, index: u16) -> (r: Result<Step, ExecError>)
        requires
            old(self).wf(),
            frame_wf(old(self)@.classes, frame@),
        ensures
            final(self).wf(),
            match r {
                Ok(step) => step_getfield(old(self)@, frame@, index) == Ok::<
                    (MachineView, StepView),
                    ExecError,
                >((final(self)@, step@)),
                Err(e) => step_getfield(old(self)@, frame@, index) == Err::<
                    (MachineView, StepView),
                    ExecError,
                >(e),
            },
    {
        let mut frame = frame;
        let (resolution, name, descriptor) = self.resolve_field(&frame, index)?;
        match resolution {
            Resolution::Missing(class_name) => self.suspend(frame, Step::NeedClass(class_name)),
            Resolution::Class(class) => {
                assert(self@.classes[class as int] == self.classes[class as int]@);
                let ordinal = match self.classes[class].field_ordinal(
                    name.as_str(),
                    descriptor.as_str(),
                ) {
                    Some(ordinal) => ordinal,
                    None => {
                        return Err(ExecError::NoSuchField);
                    },
                };
                let reference = frame.pop_reference()?;
                let value = self.heap.get_field(reference, ordinal)?;
                frame.push(value);
                self.complete(frame)
            },
        }
    }

    /// `putfield`.
    fn putfield(&mut self, frame: CallFrame, index: u16) -> (r: Result<Step, ExecError>)
        requires
            old(self).wf(),
            frame_wf(old(self)@.classes, frame@),
        ensures
            final(self).wf(),
            match r {
                Ok(step) => step_putfield(old(self)@, frame@, index) == Ok::<
                    (MachineView, StepView),
                    ExecError,
                >((final(self)@, step@)),
                Err(e) => step_putfield(old(self)@, frame@, index) == Err::<
                    (MachineView, StepView),
                    ExecError,
                >(e),
            },
    {
        let mut frame = frame;
        let (resolution, name, descriptor) = self.resolve_field(&frame, index)?;
        match resolution {
            Resolution::Missing(class_name) => self.suspend(frame, Step::NeedClass(class_name)),
            Resolution::Class(class) => {
                assert(self@.classes[class as int] == self.classes[class as int]@);
                let ordinal = match self.classes[class].field_ordinal(
                    name.as_str(),
                    descriptor.as_str(),
                ) {
                    Some(ordinal) => ordinal,
                    None => {
                        return Err(ExecError::NoSuchField);
                    },
                };
                let value = frame.pop()?;
                let reference = frame.pop_reference()?;
                self.heap.put_field(reference, ordinal, value)?;
                self.complete(frame)
            },
        }
    }

    /// `getstatic`.
    fn getstatic(&mut self, frame: CallFrame, index: u16) -> (r: Result<Step, ExecError>)
        requires
            old(self).wf(),
            frame_wf(old(self)@.classes, frame@),
        ensures
            final(self).wf(),
            match r {
                Ok(step) => step_getstatic(old(self)@, frame@, index) == Ok::<
                    (MachineView, StepView),
                    ExecError,
                >((final(self)@, step@)),
                Err(e) => step_getstatic(old(self)@, frame@, index) == Err::<
                    (MachineView, StepView),
                    ExecError,
                >(e),
            },
    {
        let mut frame = frame;
        let (resolution, name, descriptor) = self.resolve_field(&frame, index)?;
        match resolution {
            Resolution::Missing(class_name) => self.suspend(frame, Step::NeedClass(class_name)),
            Resolution::Class(class) => {
                assert(self@.classes[class as int] == self.classes[class as int]@);
                match self.classes[class].static_field(name.as_str(), descriptor.as_str()) {
                    None => Err(ExecError::NoSuchField),
                    Some(value) => {
                        frame.push(value);
                        self.complete(frame)
                    },
                }
            },
        }
    }

    /// `putstatic`.
    fn putstatic(&mut self, frame: CallFrame, index: u16) -> (r: Result<Step, ExecError>)
        requires
            old(self).wf(),
            frame_wf(old(self)@.classes, frame@),
        ensures
            final(self).wf(),
            match r {
                Ok(step) => step_putstatic(old(self)@, frame@, index) == Ok::<
                    (MachineView, StepView),
                    ExecError,
                >((final(self)@, step@)),
                Err(e) => step_putstatic(old(self)@, frame@, index) == Err::<
                    (MachineView, StepView),
                    ExecError,
                >(e),
            },
    {
        let mut frame = frame;
        let (resolution, name, descriptor) = self.resolve_field(&frame, index)?;
        match resolution {
            Resolution::Missing(class_name) => self.suspend(frame, Step::NeedClass(class_name)),
            Resolution::Class(class) => {
                assert(self@.classes[class as int] == self.classes[class as int]@);
                if self.classes[class].static_field(name.as_str(), descriptor.as_str()).is_none() {
                    return Err(ExecError::NoSuchField);
                }
                let value = frame.pop()?;
                let ghost before = self@;
                self.classes[class].set_static_field(name.as_str(), descriptor.as_str(), value);
                proof {
                    let key = (name@, descriptor@);
                    let after = MachineView {
                        classes: before.classes.update(
                            class as int,
                            before.classes[class as int].with_static_field(key, value),
                        ),
                        ..before
                    };
                    assert(self@.classes =~= after.classes);
                    assert(self@ == after);
                    assert forall|j: int| 0 <= j < after.frames.len() implies frame_wf(
                        after.classes,
                        #[trigger] after.frames[j],
                    ) by {
                        assert(frame_wf(before.classes, before.frames[j]));
                    }
                    assert(frame_wf(before.classes, frame@));
                }
                self.complete(frame)
            },
        }
    }

    /// The call of a method with code.
    fn call(&mut self, frame: CallFrame, owner: usize, place: usize, count: usize) -> (r: Result<
        Step,
        ExecError,
    >)
        requires
            old(self).wf(),
            frame_wf(old(self)@.classes, frame@),
            owner < old(self)@.classes.len(),
            place < old(self)@.classes[owner as int].methods.methods.len(),
        ensures
            final(self).wf(),
            match r {
                Ok(step) => step_call(old(self)@, frame@, owner, place, count as int) == Ok::<
                    (MachineView, StepView),
                    ExecError,
                >((final(self)@, step@)),
                Err(e) => step_call(old(self)@, frame@, owner, place, count as int) == Err::<
                    (MachineView, StepView),
                    ExecError,
                >(e),
            },
    {
        let mut frame = frame;
        let depth = frame.operand_stack.len();
        if depth < count {
            return Err(ExecError::StackUnderflow);
        }
        assert(self@.classes[owner as int] == self.classes[owner as int]@);
        let callee = CallFrame::new(
            owner,
            place,
            self.classes[owner].method_at(place),
            slice_subrange(frame.operand_stack.as_slice(), depth - count, depth),
        )?;
        let ghost stack = frame@.stack;
        frame.operand_stack.truncate(depth - count);
        assert(frame@.stack =~= stack.subrange(0, depth - count));
        self.complete(frame)?;
        let ghost view = callee@;
        let ghost before = self@;
        self.frames.push(callee);
        assert(self@.frames =~= before.frames.push(view));
        Ok(Step::Continue)
    }

    /// The call of an intrinsic.
    fn native(&mut self, frame: CallFrame, intrinsic: Intrinsic, clock: Option<ClockReading>) -> (r:
        Result<Step, ExecError>)
        requires
            old(self).wf(),
            frame_wf(old(self)@.classes, frame@),
        ensures
            final(self).wf(),
            match r {
                Ok(step) => step_native(old(self)@, frame@, intrinsic, clock) == Ok::<
                    (MachineView, StepView),
                    ExecError,
                >((final(self)@, step@)),
                Err(e) => step_native(old(self)@, frame@, intrinsic, clock) == Err::<
                    (MachineView, StepView),
                    ExecError,
                >(e),
            },
    {
        let mut frame = frame;
        match intrinsic {
            Intrinsic::RegisterNatives => self.complete(frame),
            Intrinsic::Print => {
                let value = frame.pop()?;
                let text = render(&self.classes, &self.heap, value)?;
                self.stdout.extend_from_slice(text.as_slice());
                assert(self.stdout@ =~= old(self).stdout@ + text@);
                assert(self@ == (MachineView { stdout: old(self)@.stdout + text@, ..old(self)@ }));
                self.complete(frame)
            },
            Intrinsic::CurrentTimeMillis => match clock {
                None => self.suspend(frame, Step::NeedClock),
                Some(reading) => {
                    let value = time_value(reading)?;
                    frame.push(value);
                    self.complete(frame)
                },
            },
        }
    }

    /// The method that a virtual call runs.
    fn virtual_target(
        &self,
        frame: &CallFrame,
        name: &str,
        descriptor: &str,
        parameters: usize,
    ) -> (r: Result<(usize, usize), ExecError>)
        requires
            self.wf(),
        ensures
            r == virtual_target(self@, frame@, (name@, descriptor@), parameters as int),
            r matches Ok((owner, place)) ==> owner < self@.classes.len() && place
                < self@.classes[owner as int].methods.methods.len(),
    {
        let depth = frame.operand_stack.len();
        if depth <= parameters {
            return Err(ExecError::StackUnderflow);
        }
        match frame.operand_stack[depth - parameters - 1] {
            JvmValue::Reference(reference) => {
                let class = self.heap.class_of(reference)?;
                match self.lookup_method(class, name, descriptor) {
                    None => Err(ExecError::NoSuchMethod),
                    Some(target) => Ok(target),
                }
            },
            _ => Err(ExecError::TypeMismatch),
        }
    }

    /// `invoke`.
    fn invoke(
        &mut self,
        frame: CallFrame,
        instruction: Instruction,
        kind: InvokeKind,
        index: u16,
        clock: Option<ClockReading>,
    ) -> (r: Result<Step, ExecError>)
        requires
            old(self).wf(),
            frame_wf(old(self)@.classes, frame@),
        ensures
            final(self).wf(),
            match r {
                Ok(step) => step_invoke(old(self)@, frame@, instruction, kind, index, clock)
                    == Ok::<(MachineView, StepView), ExecError>((final(self)@, step@)),
                Err(e) => step_invoke(old(self)@, frame@, instruction, kind, index, clock)
                    == Err::<(MachineView, StepView), ExecError>(e),
            },
    {
        assert(self@.classes[frame.class as int] == self.classes[frame.class as int]@);
        let (class_index, name, descriptor) = match self.classes[frame.class].constant_pool().method_ref(
            index,
        ) {
            Ok(member) => (member.class_index, member.name.clone(), member.descriptor.clone()),
            Err(e) => {
                return Err(ExecError::BadConstantPoolEntry(e));
            },
        };
        let class = match self.resolve(frame.class, class_index)? {
            Resolution::Missing(class_name) => {
                return self.suspend(frame, Step::NeedClass(class_name));
            },
            Resolution::Class(class) => class,
        };
        let (owner, place) = match self.lookup_method(class, name.as_str(), descriptor.as_str()) {
            Some(found) => found,
            None => {
                return Err(ExecError::NoSuchMethod);
            },
        };
        assert(self@.classes[owner as int] == self.classes[owner as int]@);
        let method = self.classes[owner].method_at(place);
        let parameters = method.descriptor.params.len();
        let is_native = method.access_flags.contains(MethodAccessFlags::NATIVE);
        let is_private = method.access_flags.contains(MethodAccessFlags::PRIVATE);
        assert(method@.descriptor.params.len() == parameters);
        match kind {
            InvokeKind::Static => {
                let intrinsic = if is_native {
                    intrinsic(name.as_str())
                } else {
                    None
                };
                match intrinsic {
                    Some(intrinsic) => self.native(frame, intrinsic, clock),
                    None => self.call(frame, owner, place, parameters),
                }
            },
            InvokeKind::Special => {
                if frame.operand_stack.len() <= parameters {
                    return Err(ExecError::StackUnderflow);
                }
                self.call(frame, owner, place, parameters + 1)
            },
            InvokeKind::Virtual => {
                if frame.operand_stack.len() <= parameters {
                    return Err(ExecError::StackUnderflow);
                }
                if is_private {
                    self.call(frame, owner, place, parameters + 1)
                } else {
                    let (target_owner, target_place) = self.virtual_target(
                        &frame,
                        name.as_str(),
                        descriptor.as_str(),
                        parameters,
                    )?;
                    self.call(frame, target_owner, target_place, parameters + 1)
                }
            },
            _ => Err(ExecError::Unsupported(Feature::Instruction(instruction))),
        }
    }

    /// Executes an instruction that needs the machine.
    fn machine_instruction(
        &mut self,
        frame: CallFrame,
        instruction: Instruction,
        clock: Option<ClockReading>,
    ) -> (r: Result<Step, ExecError>)
        requires
            old(self).wf(),
            frame_wf(old(self)@.classes, frame@),
        ensures
            final(self).wf(),
            match r {
                Ok(step) => machine_instruction(old(self)@, frame@, instruction, clock) == Ok::<
                    (MachineView, StepView),
                    ExecError,
                >((final(self)@, step@)),
                Err(e) => machine_instruction(old(self)@, frame@, instruction, clock) == Err::<
                    (MachineView, StepView),
                    ExecError,
                >(e),
            },
    {
        match instruction {
            Instruction::ldc { index } => self.ldc(frame, instruction, index),
            Instruction::newarray { atype } => self.newarray(frame, atype),
            Instruction::arraylength => self.arraylength(frame),
            Instruction::arraystore { data_type } => self.arraystore(frame, data_type),
            Instruction::new { index } => self.new_object(frame, index),
            Instruction::getfield { index } => self.getfield(frame, index),
            Instruction::putfield { index } => self.putfield(frame, index),
            Instruction::getstatic { index } => self.getstatic(frame, index),
            Instruction::putstatic { index } => self.putstatic(frame, index),
            Instruction::invoke { kind, index } => self.invoke(
                frame,
                instruction,
                kind,
                index,
                clock,
            ),
            _ => Err(ExecError::Unsupported(Feature::Instruction(instruction))),
        }
    }

    /// Hands the result of a frame that has returned to its caller.
    fn returned(&mut self, value: Option<JvmValue>) -> (r: Result<Step, ExecError>)
        requires
            old(self).wf(),
        ensures
            final(self).wf(),
            r is Ok,
            step_returned(old(self)@, value) == Ok::<(MachineView, StepView), ExecError>(
                (final(self)@, r->Ok_0@),
            ),
    {
        let depth = self.frames.len();
        if depth == 0 {
            return Ok(Step::Finished(value));
        }
        match value {
            None => Ok(Step::Continue),
            Some(result) => {
                let ghost before = self@;
                self.frames[depth - 1].push(result);
                proof {
                    assert(self@.frames =~= before.frames.drop_last().push(
                        crate::call_frame::pushed(before.frames.last(), result),
                    ));
                    assert(frame_wf(before.classes, before.frames[depth - 1]));
                }
                Ok(Step::Continue)
            },
        }
    }

    /// Takes one step: executes the instruction at which the topmost frame
    /// stands.
    ///
    /// `clock` is a reading of the clock, if the owner has taken one. The
    /// result and the machine afterwards are what [`machine_step`] says. A
    /// step that answers [`Step::NeedClass`] or [`Step::NeedClock`] has left
    /// the machine as it was. After an error the machine is in order, but
    /// the run is over.
    pub fn step_with(&mut self, clock: Option<ClockReading>) -> (r: Result<Step, ExecError>)
        requires
            old(self).wf(),
        ensures
            final(self).wf(),
            match r {
                Ok(step) => machine_step(old(self)@, clock) == Ok::<
                    (MachineView, StepView),
                    ExecError,
                >((final(self)@, step@)),
                Err(e) => machine_step(old(self)@, clock) == Err::<
                    (MachineView, StepView),
                    ExecError,
                >(e),
            },
            r matches Ok(Step::NeedClass(_)) ==> final(self)@ == old(self)@,
            r matches Ok(Step::NeedClock) ==> final(self)@ == old(self)@,
    {
        let mut frame = match self.frames.pop() {
            Some(frame) => frame,
            None => {
                return Err(ExecError::NoFrame);
            },
        };
        proof {
            assert(self@.frames =~= old(self)@.frames.drop_last());
            assert(frame@ == old(self)@.frames.last());
            assert(frame_wf(old(self)@.classes, old(self)@.frames[old(self)@.frames.len() - 1]));
            assert forall|j: int| 0 <= j < self@.frames.len() implies frame_wf(
                self@.classes,
                #[trigger] self@.frames[j],
            ) by {
                assert(frame_wf(old(self)@.classes, old(self)@.frames[j]));
            }
            assert(old(self)@.frames =~= self@.frames.push(frame@));
        }
        let ghost rest = self@;
        let ghost top = frame@;
        let (instruction, length) = match &self.method_of(&frame).body {
            Some(body) => {
                if frame.pc >= body.code.len() {
                    return Err(ExecError::ProgramCounterOverflow);
                }
                (body.code[frame.pc], body.code.len())
            },
            None => {
                return Err(ExecError::MissingMethodBody);
            },
        };
        match frame.execute(instruction)? {
            Flow::Machine => {
                let r = self.machine_instruction(frame, instruction, clock);
                proof {
                    lemma_asking_changes_nothing(rest, top, instruction, clock);
                }
                r
            },
            Flow::Return(value) => self.returned(value),
            flow => {
                frame.advance(flow, length)?;
                let ghost view = frame@;
                self.frames.push(frame);
                assert(self@.frames =~= rest.frames.push(view));
                Ok(Step::Continue)
            },
        }
    }
}

/// The intrinsic of the given name.
pub fn intrinsic(name: &str) -> (r: Option<Intrinsic>)
    ensures
        r == intrinsic_named(name@),
{
    if str_eq(name, "registerNatives") {
        Some(Intrinsic::RegisterNatives)
    } else if str_eq(name, "print") {
        Some(Intrinsic::Print)
    } else if str_eq(name, "currentTimeMillis") {
        Some(Intrinsic::CurrentTimeMillis)
    } else {
        None
    }
}

/// The value that `currentTimeMillis` pushes for a reading of the clock.
pub fn time_value(reading: ClockReading) -> (r: Result<JvmValue, ExecError>)
    ensures
        r == clock_value(reading),
{
    match reading {
        Some(millis) => if millis <= i64::MAX as u128 {
            Ok(JvmValue::Long(millis as i64))
        } else {
            Err(ExecError::ClockOutOfRange)
        },
        None => Err(ExecError::ClockOutOfRange),
    }
}

/// An instruction that asks for a class or for the time leaves the machine
/// as it was: with the frame back on the call stack.
pub proof fn lemma_asking_changes_nothing(
    machine: MachineView,
    frame: FrameView,
    instruction: Instruction,
    clock: Option<ClockReading>,
)
    ensures
        machine_instruction(machine, frame, instruction, clock) matches Ok((after, step)) ==> (step
            is NeedClass || step is NeedClock) ==> after == (MachineView {
            frames: machine.frames.push(frame),
            ..machine
        }),
{
}

/// Why a class could not be loaded.
#[derive(Debug)]
pub enum LoadError {
    /// The bytes are no class file.
    Read(ReadError),
    /// The class file cannot be linked.
    Link(LinkError),
    /// The class initialiser cannot be started.
    Init(ExecError),
}

/// [`LoadError`] as contracts see it.
pub enum LoadErrorView {
    Read(ReadError),
    Link(LinkErrorView),
    Init(ExecError),
}

impl View for LoadError {
    type V = LoadErrorView;

    open spec fn view(&self) -> LoadErrorView {
        match self {
            LoadError::Read(e) => LoadErrorView::Read(*e),
            LoadError::Link(e) => LoadErrorView::Link(e@),
            LoadError::Init(e) => LoadErrorView::Init(*e),
        }
    }
}

/// The class that the machine holds under the name that the class file
/// gives for its super class, with its number.
pub open spec fn super_for(classes: Seq<ClassView>, class_file: ClassFileView) -> Option<
    (usize, ClassView),
> {
    if class_file.super_class == 0 {
        None
    } else {
        match pool_class_name(class_file.constant_pool, class_file.super_class) {
            Err(_) => None,
            Ok(name) => match find_class(classes, name) {
                Some(number) => Some((number, classes[number as int])),
                None => None,
            },
        }
    }
}

/// The place of the class initialiser among the methods of a class: that of
/// the method `<clinit>()V`, if the class declares one and it is static.
pub open spec fn initializer(class: ClassView) -> Option<usize> {
    match table_lookup(class.methods.places, ("<clinit>"@, "()V"@)) {
        Some(place) => if class.methods.methods[place as int].access_flags.has(
            MethodAccessFlags::STATIC,
        ) {
            Some(place)
        } else {
            None
        },
        None => None,
    }
}

/// The class that the machine holds under the name that the class file
/// gives for its own class.
pub open spec fn held_as(classes: Seq<ClassView>, class_file: ClassFileView) -> Option<usize> {
    match pool_class_name(class_file.constant_pool, class_file.this_class) {
        Err(_) => None,
        Ok(name) => find_class(classes, name),
    }
}

/// The machine after it has taken in a class file, and the number of the
/// class.
///
/// A machine that holds a class of the name is left as it is: a class is
/// linked, and its initialiser started, once. Else the class file is linked
/// under the class that the machine holds as its super class, and the class
/// is added to the registry. If the class has a class initialiser, a frame
/// for it is put on top of the call stack, so that it runs before anything
/// else does.
pub open spec fn defined(machine: MachineView, class_file: ClassFileView) -> Result<
    (MachineView, usize),
    LoadErrorView,
> {
    match held_as(machine.classes, class_file) {
        Some(number) => Ok((machine, number)),
        None => newly_defined(machine, class_file),
    }
}

/// [`defined`] for a class that the machine does not hold.
pub open spec fn newly_defined(machine: MachineView, class_file: ClassFileView) -> Result<
    (MachineView, usize),
    LoadErrorView,
> {
    match linked(class_file, super_for(machine.classes, class_file)) {
        Err(e) => Err(LoadErrorView::Link(e)),
        Ok(class) => match initializer(class) {
            None => Ok(
                (
                    MachineView { classes: machine.classes.push(class), ..machine },
                    machine.classes.len() as usize,
                ),
            ),
            Some(place) => match new_frame(
                machine.classes.len() as usize,
                place,
                class.methods.methods[place as int],
                Seq::empty(),
            ) {
                Err(e) => Err(LoadErrorView::Init(e)),
                Ok(frame) => Ok(
                    (
                        MachineView {
                            classes: machine.classes.push(class),
                            frames: machine.frames.push(frame),
                            ..machine
                        },
                        machine.classes.len() as usize,
                    ),
                ),
            },
        },
    }
}

/// The machine after a class file has been read from `bytes` and taken in.
pub open spec fn loaded(machine: MachineView, bytes: Seq<u8>) -> Result<
    (MachineView, usize),
    LoadErrorView,
> {
    match class_file_at(bytes, 0) {
        Err(e) => Err(LoadErrorView::Read(e)),
        Ok((class_file, _)) => defined(machine, class_file),
    }
}

/// The machine after a call of the method at place `place` of class `class`
/// has been started, without arguments: a frame for it is on top of the call
/// stack.
pub open spec fn started(machine: MachineView, class: usize, place: usize) -> Result<
    MachineView,
    ExecError,
> {
    if class >= machine.classes.len() || place
        >= machine.classes[class as int].methods.methods.len() {
        Err(ExecError::NoSuchMethod)
    } else {
        match new_frame(
            class,
            place,
            machine.classes[class as int].methods.methods[place as int],
            Seq::empty(),
        ) {
            Err(e) => Err(e),
            Ok(frame) => Ok(MachineView { frames: machine.frames.push(frame), ..machine }),
        }
    }
}

/// A step that was handed a reading of the clock does not ask for one.
pub proof fn lemma_clock_is_enough(machine: MachineView, reading: ClockReading)
    ensures
        machine_step(machine, Some(reading)) matches Ok((_, step)) ==> !(step is NeedClock),
{
}

impl<T: TimeProvider> Vm<T> {
    /// The class that the machine holds as the super class of a class file.
    fn super_of(&self, class_file: &ClassFile) -> (r: Option<(usize, &Class)>)
        requires
            self.wf(),
        ensures
            crate::class::super_view(r) == super_for(self@.classes, class_file@),
            r matches Some((number, class)) ==> number < self@.classes.len() && class.wf(),
    {
        if class_file.super_class == 0 {
            return None;
        }
        match class_file.constant_pool.class_name(class_file.super_class) {
            Err(_) => None,
            Ok(name) => match self.find_class(name.as_str()) {
                Some(number) => {
                    assert(self@.classes[number as int] == self.classes[number as int]@);
                    Some((number, &self.classes[number]))
                },
                None => None,
            },
        }
    }

    /// Takes in a class file: links it, adds the class to the registry, and
    /// puts a frame for its class initialiser on the call stack, if it has
    /// one. Returns the number of the class. Where the machine holds a
    /// class of the name already, it returns the number of that class and
    /// does nothing.
    ///
    /// The super class must have been taken in before; the link fails with
    /// [`LinkError::MissingSuperClass`] otherwise. The owner should run the
    /// initialiser of the super class to its end before it takes in the
    /// class, so that the classes are initialised from the root down. On
    /// failure the machine is left as it was.
    pub fn define_class(&mut self, class_file: ClassFile) -> (r: Result<usize, LoadError>)
        requires
            old(self).wf(),
        ensures
            final(self).wf(),
            match r {
                Ok(number) => defined(old(self)@, class_file@) matches Ok((machine, n))
                    && machine == final(self)@ && n == number,
                Err(e) => defined(old(self)@, class_file@) matches Err(err) && err == e@
                    && final(self)@ == old(self)@,
            },
    {
        match class_file.constant_pool.class_name(class_file.this_class) {
            Ok(name) => match self.find_class(name.as_str()) {
                Some(number) => {
                    return Ok(number);
                },
                None => {},
            },
            Err(_) => {},
        }
        let parent = self.super_of(&class_file);
        let class = match Class::new(class_file, parent) {
            Ok(class) => class,
            Err(e) => {
                return Err(LoadError::Link(e));
            },
        };
        let number = self.classes.len();
        let frame = match class.method_place("<clinit>", "()V") {
            Some(place) => {
                let method = class.method_at(place);
                if method.access_flags.contains(MethodAccessFlags::STATIC) {
                    let no_arguments: Vec<JvmValue> = Vec::new();
                    match CallFrame::new(number, place, method, no_arguments.as_slice()) {
                        Ok(frame) => Some(frame),
                        Err(e) => {
                            return Err(LoadError::Init(e));
                        },
                    }
                } else {
                    None
                }
            },
            None => None,
        };
        let ghost view = class@;
        let ghost before = self@;
        self.classes.push(class);
        proof {
            assert(self@.classes =~= before.classes.push(view));
            lemma_find_class_from(before.classes, view.name, 0);
            assert forall|i: int, j: int|
                0 <= i < self@.classes.len() && 0 <= j < self@.classes.len() && (
                #[trigger] self@.classes[i]).name == (#[trigger] self@.classes[j]).name implies i
                == j by {
                if i < before.classes.len() && j < before.classes.len() {
                    assert(before.classes[i].name == before.classes[j].name);
                }
            }
            assert forall|j: int| 0 <= j < before.frames.len() implies frame_wf(
                self@.classes,
                #[trigger] before.frames[j],
            ) by {
                assert(frame_wf(before.classes, before.frames[j]));
            }
            assert forall|i: int| 0 <= i < self@.classes.len() implies class_wf(
                #[trigger] self@.classes[i],
            ) && (self@.classes[i].super_class matches Some(parent) ==> parent < i) by {
                if i < before.classes.len() {
                    assert(class_wf(before.classes[i]));
                }
            }
        }
        match frame {
            Some(frame) => {
                let ghost frame_view = frame@;
                let ghost middle = self@;
                self.frames.push(frame);
                proof {
                    assert(self@.frames =~= middle.frames.push(frame_view));
                }
            },
            None => {},
        }
        Ok(number)
    }

    /// Reads a class file from `bytes` and takes it in, as
    /// [`Vm::define_class`] does.
    pub fn load_class_file(&mut self, bytes: &[u8]) -> (r: Result<usize, LoadError>)
        requires
            old(self).wf(),
        ensures
            final(self).wf(),
            match r {
                Ok(number) => loaded(old(self)@, bytes@) matches Ok((machine, n)) && machine
                    == final(self)@ && n == number,
                Err(e) => loaded(old(self)@, bytes@) matches Err(err) && err == e@ && final(self)@
                    == old(self)@,
            },
    {
        let mut reader = ClassReader::new(bytes);
        match reader.read_class_file() {
            Err(e) => Err(LoadError::Read(e)),
            Ok(class_file) => self.define_class(class_file),
        }
    }

    /// Starts a call of the method at place `method` of class `class`,
    /// without arguments: puts a frame for it on the call stack. The steps
    /// that follow run it.
    pub fn call_method(&mut self, class: usize, method: usize) -> (r: Result<(), ExecError>)
        requires
            old(self).wf(),
        ensures
            final(self).wf(),
            match r {
                Ok(()) => started(old(self)@, class, method) == Ok::<MachineView, ExecError>(
                    final(self)@,
                ),
                Err(e) => started(old(self)@, class, method) == Err::<MachineView, ExecError>(e)
                    && final(self)@ == old(self)@,
            },
    {
        if class >= self.classes.len() {
            return Err(ExecError::NoSuchMethod);
        }
        assert(self@.classes[class as int] == self.classes[class as int]@);
        if method >= self.classes[class].methods_len() {
            return Err(ExecError::NoSuchMethod);
        }
        let no_arguments: Vec<JvmValue> = Vec::new();
        let frame = CallFrame::new(
            class,
            method,
            self.classes[class].method_at(method),
            no_arguments.as_slice(),
        )?;
        let ghost view = frame@;
        self.frames.push(frame);
        assert(self@.frames =~= old(self)@.frames.push(view));
        Ok(())
    }

    /// Takes one step without a reading of the clock.
    fn step_unclocked(&mut self) -> (r: Result<Step, ExecError>)
        requires
            old(self).wf(),
        ensures
            final(self).wf(),
            match r {
                Ok(step) => unclocked_step(old(self)@) == Ok::<(MachineView, StepView), ExecError>(
                    (final(self)@, step@),
                ),
                Err(e) => unclocked_step(old(self)@) == Err::<(MachineView, StepView), ExecError>(
                    e,
                ),
            },
    {
        reveal(unclocked_step);
        self.step_with(None)
    }

    /// Takes steps until the call stack is no deeper than `floor` frames:
    /// until the call that stands above that depth has returned. It takes at
    /// most `fuel` steps, and reads no clock.
    ///
    /// The result and the machine afterwards are what [`machine_run`] says.
    /// Where the run ends with [`Run::NeedClass`] or [`Run::NeedClock`], the
    /// step that asked has left the machine as it was, and the owner can go
    /// on from there.
    pub fn run(&mut self, floor: usize, fuel: u64) -> (r: Result<Run, ExecError>)
        requires
            old(self).wf(),
        ensures
            final(self).wf(),
            match r {
                Ok(run) => machine_run(old(self)@, floor as int, fuel as nat) == Ok::<
                    (MachineView, RunView),
                    ExecError,
                >((final(self)@, run@)),
                Err(e) => machine_run(old(self)@, floor as int, fuel as nat) == Err::<
                    (MachineView, RunView),
                    ExecError,
                >(e),
            },
    {
        let ghost start = self@;
        let mut left: u64 = fuel;
        loop
            invariant
                self.wf(),
                start == old(self)@,
                machine_run(start, floor as int, fuel as nat) == machine_run(
                    self@,
                    floor as int,
                    left as nat,
                ),
            decreases left,
        {
            if self.frames.len() <= floor {
                return Ok(Run::Returned);
            }
            if left == 0 {
                return Ok(Run::OutOfFuel);
            }
            match self.step_unclocked()? {
                Step::Continue => {
                    left = left - 1;
                },
                Step::Finished(value) => {
                    return Ok(Run::Finished(value));
                },
                Step::NeedClass(name) => {
                    return Ok(Run::NeedClass(name));
                },
                Step::NeedClock => {
                    return Ok(Run::NeedClock);
                },
            }
        }
    }

    /// Takes one step, and reads the clock if the instruction needs the
    /// time.
    ///
    /// The result and the machine afterwards are what [`machine_step`] says
    /// for some reading of the clock, or for none. The step does not answer
    /// [`Step::NeedClock`].
    pub fn step(&mut self) -> (r: Result<Step, ExecError>)
        requires
            old(self).wf(),
        ensures
            final(self).wf(),
            exists|clock: Option<ClockReading>|
                match r {
                    Ok(step) => #[trigger] machine_step(old(self)@, clock) == Ok::<
                        (MachineView, StepView),
                        ExecError,
                    >((final(self)@, step@)),
                    Err(e) => machine_step(old(self)@, clock) == Err::<
                        (MachineView, StepView),
                        ExecError,
                    >(e),
                },
            !(r matches Ok(Step::NeedClock)),
            r matches Ok(Step::NeedClass(_)) ==> final(self)@ == old(self)@,
    {
        match self.step_with(None) {
            Ok(Step::NeedClock) => {
                let time = self.time.system_time();
                let reading: ClockReading = match since_epoch(&time) {
                    Some(duration) => Some(whole_millis(&duration)),
                    None => None,
                };
                proof {
                    lemma_clock_is_enough(old(self)@, reading);
                }
                self.step_with(Some(reading))
            },
            other => other,
        }
    }
}

} // verus!
