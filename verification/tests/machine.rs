//! Whole programs: class files are built byte by byte, read, linked and run.

use rusty_java::call_frame::JvmValue;
use rusty_java::class::{Class, LinkError};
use rusty_java::class_file::constant_pool::{ConstantInfo, ConstantKind};
use rusty_java::class_file::{AttributeInfo, FieldAccessFlags, MethodAccessFlags};
use rusty_java::decode::DecodeError;
use rusty_java::descriptor::{BaseType, FieldType};
use rusty_java::error::{ExecError, Feature};
use rusty_java::instructions::Instruction;
use rusty_java::machine::{Run, Step};
use rusty_java::reader::{ClassReader, ReadError};
use rusty_java::vm::{LoadError, TimeProvider, Vm};
use std::time::{Duration, SystemTime};

const STATIC: u16 = 0x0008;
const PUBLIC: u16 = 0x0001;
const PRIVATE: u16 = 0x0002;
const NATIVE: u16 = 0x0100;
const SYNCHRONIZED: u16 = 0x0020;

/// Builds the bytes of a class file.
struct ClassBuilder {
    pool: Vec<u8>,
    next_index: u16,
    this_class: u16,
    super_class: u16,
    fields: Vec<Vec<u8>>,
    methods: Vec<Vec<u8>>,
    code_name: u16,
}

fn put_u16(out: &mut Vec<u8>, v: u16) {
    out.extend_from_slice(&v.to_be_bytes());
}

fn put_u32(out: &mut Vec<u8>, v: u32) {
    out.extend_from_slice(&v.to_be_bytes());
}

impl ClassBuilder {
    fn new(name: &str, super_name: Option<&str>) -> ClassBuilder {
        let mut builder = ClassBuilder {
            pool: Vec::new(),
            next_index: 1,
            this_class: 0,
            super_class: 0,
            fields: Vec::new(),
            methods: Vec::new(),
            code_name: 0,
        };
        builder.this_class = builder.class(name);
        if let Some(super_name) = super_name {
            builder.super_class = builder.class(super_name);
        }
        builder.code_name = builder.utf8("Code");
        builder
    }

    fn entry(&mut self, bytes: &[u8], slots: u16) -> u16 {
        let index = self.next_index;
        self.pool.extend_from_slice(bytes);
        self.next_index += slots;
        index
    }

    fn utf8(&mut self, text: &str) -> u16 {
        let mut bytes = vec![1u8];
        put_u16(&mut bytes, text.len() as u16);
        bytes.extend_from_slice(text.as_bytes());
        self.entry(&bytes, 1)
    }

    fn long(&mut self, v: i64) -> u16 {
        let mut bytes = vec![5u8];
        bytes.extend_from_slice(&v.to_be_bytes());
        self.entry(&bytes, 2)
    }

    fn integer(&mut self, v: i32) -> u16 {
        let mut bytes = vec![3u8];
        bytes.extend_from_slice(&v.to_be_bytes());
        self.entry(&bytes, 1)
    }

    fn class(&mut self, name: &str) -> u16 {
        let name_index = self.utf8(name);
        let mut bytes = vec![7u8];
        put_u16(&mut bytes, name_index);
        self.entry(&bytes, 1)
    }

    fn string(&mut self, text: &str) -> u16 {
        let text_index = self.utf8(text);
        let mut bytes = vec![8u8];
        put_u16(&mut bytes, text_index);
        self.entry(&bytes, 1)
    }

    fn name_and_type(&mut self, name: &str, descriptor: &str) -> u16 {
        let name_index = self.utf8(name);
        let descriptor_index = self.utf8(descriptor);
        let mut bytes = vec![12u8];
        put_u16(&mut bytes, name_index);
        put_u16(&mut bytes, descriptor_index);
        self.entry(&bytes, 1)
    }

    fn member_ref(&mut self, tag: u8, class_index: u16, name: &str, descriptor: &str) -> u16 {
        let name_and_type = self.name_and_type(name, descriptor);
        let mut bytes = vec![tag];
        put_u16(&mut bytes, class_index);
        put_u16(&mut bytes, name_and_type);
        self.entry(&bytes, 1)
    }

    /// A reference to a field of this class.
    fn own_field(&mut self, name: &str, descriptor: &str) -> u16 {
        let this_class = self.this_class;
        self.member_ref(9, this_class, name, descriptor)
    }

    /// A reference to a method of this class.
    fn own_method(&mut self, name: &str, descriptor: &str) -> u16 {
        let this_class = self.this_class;
        self.member_ref(10, this_class, name, descriptor)
    }

    /// A reference to a method of another class.
    fn method_of(&mut self, class: &str, name: &str, descriptor: &str) -> u16 {
        let class_index = self.class(class);
        self.member_ref(10, class_index, name, descriptor)
    }

    /// A reference to a field of another class.
    fn field_of(&mut self, class: &str, name: &str, descriptor: &str) -> u16 {
        let class_index = self.class(class);
        self.member_ref(9, class_index, name, descriptor)
    }

    fn field(&mut self, flags: u16, name: &str, descriptor: &str) {
        let name_index = self.utf8(name);
        let descriptor_index = self.utf8(descriptor);
        let mut bytes = Vec::new();
        put_u16(&mut bytes, flags);
        put_u16(&mut bytes, name_index);
        put_u16(&mut bytes, descriptor_index);
        put_u16(&mut bytes, 0);
        self.fields.push(bytes);
    }

    fn method(&mut self, flags: u16, name: &str, descriptor: &str, code: Option<(u16, &[u8])>) {
        let name_index = self.utf8(name);
        let descriptor_index = self.utf8(descriptor);
        let mut bytes = Vec::new();
        put_u16(&mut bytes, flags);
        put_u16(&mut bytes, name_index);
        put_u16(&mut bytes, descriptor_index);
        match code {
            None => put_u16(&mut bytes, 0),
            Some((locals, code)) => {
                put_u16(&mut bytes, 1);
                put_u16(&mut bytes, self.code_name);
                put_u32(&mut bytes, 12 + code.len() as u32);
                put_u16(&mut bytes, 8);
                put_u16(&mut bytes, locals);
                put_u32(&mut bytes, code.len() as u32);
                bytes.extend_from_slice(code);
                put_u16(&mut bytes, 0);
                put_u16(&mut bytes, 0);
            }
        }
        self.methods.push(bytes);
    }

    /// Declares the intrinsic `print` for an argument of the given type.
    fn print(&mut self, argument: &str) -> u16 {
        let descriptor = format!("({})V", argument);
        self.method(PUBLIC | STATIC | NATIVE, "print", &descriptor, None);
        self.own_method("print", &descriptor)
    }

    fn build(&self) -> Vec<u8> {
        let mut out = Vec::new();
        put_u32(&mut out, 0xCAFE_BABE);
        put_u16(&mut out, 0);
        put_u16(&mut out, 65);
        put_u16(&mut out, self.next_index);
        out.extend_from_slice(&self.pool);
        put_u16(&mut out, 0x0021);
        put_u16(&mut out, self.this_class);
        put_u16(&mut out, self.super_class);
        put_u16(&mut out, 0);
        put_u16(&mut out, self.fields.len() as u16);
        for field in &self.fields {
            out.extend_from_slice(field);
        }
        put_u16(&mut out, self.methods.len() as u16);
        for method in &self.methods {
            out.extend_from_slice(method);
        }
        put_u16(&mut out, 0);
        out
    }
}

fn hi(index: u16) -> u8 {
    (index >> 8) as u8
}

fn lo(index: u16) -> u8 {
    (index & 0xff) as u8
}

/// The root class: no super class, a constructor that does nothing.
fn object_class() -> Vec<u8> {
    let mut builder = ClassBuilder::new("java/lang/Object", None);
    builder.method(PUBLIC, "<init>", "()V", Some((1, &[0xb1])));
    builder.build()
}

/// The class files that a run may ask for, by name.
struct Library {
    classes: Vec<(String, Vec<u8>)>,
}

impl Library {
    fn new() -> Library {
        Library { classes: vec![("java/lang/Object".to_string(), object_class())] }
    }

    fn with(mut self, name: &str, bytes: Vec<u8>) -> Library {
        self.classes.push((name.to_string(), bytes));
        self
    }

    fn bytes(&self, name: &str) -> Option<&Vec<u8>> {
        self.classes.iter().find(|(n, _)| n == name).map(|(_, bytes)| bytes)
    }
}

#[derive(Debug)]
enum RunError {
    Load(LoadError),
    Exec(ExecError),
    Read(ReadError),
    ClassNotFound(String),
    OutOfSteps,
}

/// Runs the machine until the call stack is no deeper than `floor`, loading
/// the classes that it asks for.
fn run_to<T: TimeProvider>(
    vm: &mut Vm<T>,
    library: &Library,
    floor: usize,
) -> Result<Option<JvmValue>, RunError> {
    let mut rounds = 0;
    loop {
        rounds += 1;
        if rounds > 1000 {
            return Err(RunError::OutOfSteps);
        }
        match vm.run(floor, 1000).map_err(RunError::Exec)? {
            Run::Returned => return Ok(None),
            Run::Finished(value) => return Ok(value),
            Run::OutOfFuel => {}
            Run::NeedClass(name) => {
                load(vm, library, &name)?;
            }
            Run::NeedClock => match vm.step().map_err(RunError::Exec)? {
                Step::Finished(value) => return Ok(value),
                Step::NeedClass(name) => {
                    load(vm, library, &name)?;
                }
                Step::Continue => {}
                Step::NeedClock => unreachable!(),
            },
        }
    }
}

/// Loads a class and, before it, its super classes; runs its initialiser.
fn load<T: TimeProvider>(vm: &mut Vm<T>, library: &Library, name: &str) -> Result<usize, RunError> {
    if let Some(number) = vm.find_class(name) {
        return Ok(number);
    }
    let bytes = library.bytes(name).ok_or_else(|| RunError::ClassNotFound(name.to_string()))?;
    let class_file = ClassReader::new(bytes).read_class_file().map_err(RunError::Read)?;
    if class_file.super_class != 0 {
        let super_name = class_file
            .constant_pool
            .class_name(class_file.super_class)
            .map_err(|e| RunError::Load(LoadError::Link(LinkError::BadConstantPoolEntry(e))))?
            .clone();
        load(vm, library, &super_name)?;
    }
    let floor = vm.depth();
    let number = vm.define_class(class_file).map_err(RunError::Load)?;
    run_to(vm, library, floor)?;
    Ok(number)
}

/// Runs `main` of the named class and returns what the program printed.
fn run_main_with<T: TimeProvider>(
    mut vm: Vm<T>,
    library: &Library,
    name: &str,
) -> Result<String, RunError> {
    let number = load(&mut vm, library, name)?;
    let place = vm
        .class(number)
        .unwrap()
        .method_place("main", "([Ljava/lang/String;)V")
        .expect("main method not found");
    vm.call_method(number, place).map_err(RunError::Exec)?;
    run_to(&mut vm, library, 0)?;
    Ok(String::from_utf8(vm.take_stdout()).unwrap())
}

fn run_main(library: &Library, name: &str) -> Result<String, RunError> {
    run_main_with(Vm::new(), library, name)
}

fn hello_class() -> Vec<u8> {
    let mut builder = ClassBuilder::new("Hello", Some("java/lang/Object"));
    let print = builder.print("Ljava/lang/String;");
    let text = builder.string("hello");
    let code = [0x12, lo(text), 0xb8, hi(print), lo(print), 0xb1];
    builder.method(PUBLIC | STATIC, "main", "([Ljava/lang/String;)V", Some((1, &code)));
    builder.build()
}

#[test]
fn hello_prints_its_string() {
    let library = Library::new().with("Hello", hello_class());
    assert_eq!(run_main(&library, "Hello").unwrap(), "hello");
}

#[test]
fn sum_loop_prints_45() {
    let mut builder = ClassBuilder::new("Sum", Some("java/lang/Object"));
    let print = builder.print("I");
    let code = [
        0x03, // iconst_0
        0x3c, // istore_1
        0x03, // iconst_0
        0x3d, // istore_2
        0x1c, // 4: iload_2
        0x10, 10, // bipush 10
        0xa2, 0x00, 13, // 7: if_icmpge -> 20
        0x1b, // iload_1
        0x1c, // iload_2
        0x60, // iadd
        0x3c, // istore_1
        0x84, 2, 1, // iinc 2 1
        0xa7, 0xff, 0xf3, // 17: goto -> 4
        0x1b, // 20: iload_1
        0xb8, hi(print), lo(print),
        0xb1,
    ];
    builder.method(PUBLIC | STATIC, "main", "([Ljava/lang/String;)V", Some((3, &code)));
    let library = Library::new().with("Sum", builder.build());
    assert_eq!(run_main(&library, "Sum").unwrap(), "45");
}

#[test]
fn remainder_of_7_by_3_prints_1() {
    let mut builder = ClassBuilder::new("Rem", Some("java/lang/Object"));
    let print = builder.print("I");
    let code = [0x10, 7, 0x06, 0x70, 0xb8, hi(print), lo(print), 0xb1];
    builder.method(PUBLIC | STATIC, "main", "([Ljava/lang/String;)V", Some((1, &code)));
    let library = Library::new().with("Rem", builder.build());
    assert_eq!(run_main(&library, "Rem").unwrap(), "1");
}

#[test]
fn array_prints_its_length_and_elements() {
    let mut builder = ClassBuilder::new("Arr", Some("java/lang/Object"));
    let print_int = builder.print("I");
    let print_array = builder.print("[I");
    let code = [
        0x06, // iconst_3
        0xbc, 10, // newarray int
        0x4c, // astore_1
        0x2b, 0x03, 0x10, 10, 0x4f, // a[0] = 10
        0x2b, 0x04, 0x10, 20, 0x4f, // a[1] = 20
        0x2b, 0x05, 0x10, 30, 0x4f, // a[2] = 30
        0x2b, 0xbe, // aload_1; arraylength
        0xb8, hi(print_int), lo(print_int),
        0x2b,
        0xb8, hi(print_array), lo(print_array),
        0xb1,
    ];
    builder.method(PUBLIC | STATIC, "main", "([Ljava/lang/String;)V", Some((2, &code)));
    let library = Library::new().with("Arr", builder.build());
    assert_eq!(run_main(&library, "Arr").unwrap(), "3[10, 20, 30]");
}

/// A class with a constructor and a method `sound` that returns `text`.
fn animal_class(name: &str, super_name: &str, text: &str) -> Vec<u8> {
    let mut builder = ClassBuilder::new(name, Some(super_name));
    let super_init = builder.method_of(super_name, "<init>", "()V");
    let init = [0x2a, 0xb7, hi(super_init), lo(super_init), 0xb1];
    builder.method(PUBLIC, "<init>", "()V", Some((1, &init)));
    let sound = builder.string(text);
    let code = [0x12, lo(sound), 0xb0];
    builder.method(PUBLIC, "sound", "()Ljava/lang/String;", Some((1, &code)));
    builder.build()
}

#[test]
fn virtual_call_selects_the_override() {
    let mut builder = ClassBuilder::new("Zoo", Some("java/lang/Object"));
    let print = builder.print("Ljava/lang/String;");
    let dog = builder.class("Dog");
    let dog_init = builder.method_of("Dog", "<init>", "()V");
    let sound = builder.method_of("Animal", "sound", "()Ljava/lang/String;");
    let code = [
        0xbb, hi(dog), lo(dog), // new Dog
        0x59, // dup
        0xb7, hi(dog_init), lo(dog_init), // invokespecial Dog.<init>
        0x4c, // astore_1
        0x2b, // aload_1
        0xb6, hi(sound), lo(sound), // invokevirtual Animal.sound
        0xb8, hi(print), lo(print),
        0xb1,
    ];
    builder.method(PUBLIC | STATIC, "main", "([Ljava/lang/String;)V", Some((2, &code)));
    let library = Library::new()
        .with("Animal", animal_class("Animal", "java/lang/Object", "growl"))
        .with("Dog", animal_class("Dog", "Animal", "bark"))
        .with("Zoo", builder.build());
    assert_eq!(run_main(&library, "Zoo").unwrap(), "bark");
}

#[test]
fn virtual_call_falls_back_to_the_super_class() {
    // A subclass that does not override `sound` inherits it.
    let mut puppy = ClassBuilder::new("Puppy", Some("Dog"));
    let super_init = puppy.method_of("Dog", "<init>", "()V");
    let init = [0x2a, 0xb7, hi(super_init), lo(super_init), 0xb1];
    puppy.method(PUBLIC, "<init>", "()V", Some((1, &init)));

    let mut builder = ClassBuilder::new("Zoo", Some("java/lang/Object"));
    let print = builder.print("Ljava/lang/String;");
    let class = builder.class("Puppy");
    let class_init = builder.method_of("Puppy", "<init>", "()V");
    let sound = builder.method_of("Animal", "sound", "()Ljava/lang/String;");
    let code = [
        0xbb, hi(class), lo(class),
        0x59,
        0xb7, hi(class_init), lo(class_init),
        0xb6, hi(sound), lo(sound),
        0xb8, hi(print), lo(print),
        0xb1,
    ];
    builder.method(PUBLIC | STATIC, "main", "([Ljava/lang/String;)V", Some((1, &code)));
    let library = Library::new()
        .with("Animal", animal_class("Animal", "java/lang/Object", "growl"))
        .with("Dog", animal_class("Dog", "Animal", "bark"))
        .with("Puppy", puppy.build())
        .with("Zoo", builder.build());
    assert_eq!(run_main(&library, "Zoo").unwrap(), "bark");
}

fn counter_class(with_initializer: bool) -> Vec<u8> {
    let mut builder = ClassBuilder::new("Counter", Some("java/lang/Object"));
    let print = builder.print("I");
    builder.field(STATIC, "n", "I");
    let n = builder.own_field("n", "I");
    let inc = builder.own_method("inc", "()V");
    if with_initializer {
        let code = [0x10, 40, 0xb3, hi(n), lo(n), 0xb1];
        builder.method(STATIC, "<clinit>", "()V", Some((0, &code)));
    }
    let inc_code = [0xb2, hi(n), lo(n), 0x04, 0x60, 0xb3, hi(n), lo(n), 0xb1];
    builder.method(STATIC, "inc", "()V", Some((0, &inc_code)));
    let code = [
        0xb8, hi(inc), lo(inc),
        0xb8, hi(inc), lo(inc),
        0xb2, hi(n), lo(n),
        0xb8, hi(print), lo(print),
        0xb1,
    ];
    builder.method(PUBLIC | STATIC, "main", "([Ljava/lang/String;)V", Some((1, &code)));
    builder.build()
}

#[test]
fn static_field_counts_two_calls() {
    let library = Library::new().with("Counter", counter_class(false));
    assert_eq!(run_main(&library, "Counter").unwrap(), "2");
}

#[test]
fn class_initialiser_runs_before_main() {
    let library = Library::new().with("Counter", counter_class(true));
    assert_eq!(run_main(&library, "Counter").unwrap(), "42");
}

#[test]
fn object_prints_its_class_and_fields() {
    let mut base = ClassBuilder::new("Base", Some("java/lang/Object"));
    base.field(PUBLIC, "x", "I");
    let super_init = base.method_of("java/lang/Object", "<init>", "()V");
    let init = [0x2a, 0xb7, hi(super_init), lo(super_init), 0xb1];
    base.method(PUBLIC, "<init>", "()V", Some((1, &init)));

    let mut point = ClassBuilder::new("Point", Some("Base"));
    point.field(PUBLIC, "y", "I");
    point.field(PUBLIC, "next", "LPoint;");
    let super_init = point.method_of("Base", "<init>", "()V");
    let init = [0x2a, 0xb7, hi(super_init), lo(super_init), 0xb1];
    point.method(PUBLIC, "<init>", "()V", Some((1, &init)));

    let mut builder = ClassBuilder::new("Main", Some("java/lang/Object"));
    let print = builder.print("Ljava/lang/Object;");
    let class = builder.class("Point");
    let class_init = builder.method_of("Point", "<init>", "()V");
    let x = builder.field_of("Base", "x", "I");
    let y = builder.field_of("Point", "y", "I");
    let code = [
        0xbb, hi(class), lo(class),
        0x59,
        0xb7, hi(class_init), lo(class_init),
        0x4c, // astore_1
        0x2b, 0x10, 7, 0xb5, hi(x), lo(x), // p.x = 7
        0x2b, 0x10, 9, 0xb5, hi(y), lo(y), // p.y = 9
        0x2b, 0x2b, 0xb4, hi(y), lo(y), 0x04, 0x60, 0xb5, hi(y), lo(y), // p.y = p.y + 1
        0x2b,
        0xb8, hi(print), lo(print),
        0x01, // aconst_null
        0xb8, hi(print), lo(print),
        0xb1,
    ];
    builder.method(PUBLIC | STATIC, "main", "([Ljava/lang/String;)V", Some((2, &code)));
    let library = Library::new()
        .with("Base", base.build())
        .with("Point", point.build())
        .with("Main", builder.build());
    assert_eq!(run_main(&library, "Main").unwrap(), "Point {x: 7, y: 10, next: null}null");
}

#[test]
fn object_that_refers_to_itself_cannot_be_printed() {
    let mut node = ClassBuilder::new("Node", Some("java/lang/Object"));
    node.field(PUBLIC, "next", "LNode;");
    let super_init = node.method_of("java/lang/Object", "<init>", "()V");
    let init = [0x2a, 0xb7, hi(super_init), lo(super_init), 0xb1];
    node.method(PUBLIC, "<init>", "()V", Some((1, &init)));

    let mut builder = ClassBuilder::new("Main", Some("java/lang/Object"));
    let print = builder.print("Ljava/lang/Object;");
    let class = builder.class("Node");
    let class_init = builder.method_of("Node", "<init>", "()V");
    let next = builder.field_of("Node", "next", "LNode;");
    let code = [
        0xbb, hi(class), lo(class),
        0x59,
        0xb7, hi(class_init), lo(class_init),
        0x4c,
        0x2b, 0x2b, 0xb5, hi(next), lo(next), // n.next = n
        0x2b,
        0xb8, hi(print), lo(print),
        0xb1,
    ];
    builder.method(PUBLIC | STATIC, "main", "([Ljava/lang/String;)V", Some((2, &code)));
    let library = Library::new().with("Node", node.build()).with("Main", builder.build());
    assert!(matches!(
        run_main(&library, "Main"),
        Err(RunError::Exec(ExecError::RenderTooDeep))
    ));
}

struct FixedTime(SystemTime);

impl TimeProvider for FixedTime {
    fn system_time(&self) -> SystemTime {
        self.0
    }
}

fn clock_class() -> Vec<u8> {
    let mut builder = ClassBuilder::new("Clock", Some("java/lang/Object"));
    let print = builder.print("J");
    builder.method(PUBLIC | STATIC | NATIVE, "currentTimeMillis", "()J", None);
    let now = builder.own_method("currentTimeMillis", "()J");
    let code = [0xb8, hi(now), lo(now), 0xb8, hi(print), lo(print), 0xb1];
    builder.method(PUBLIC | STATIC, "main", "([Ljava/lang/String;)V", Some((1, &code)));
    builder.build()
}

#[test]
fn current_time_millis_reads_the_injected_clock() {
    let library = Library::new().with("Clock", clock_class());
    let time = SystemTime::UNIX_EPOCH + Duration::from_millis(1_700_000_000_123);
    let vm = Vm::new().with_time_provider(FixedTime(time));
    assert_eq!(run_main_with(vm, &library, "Clock").unwrap(), "1700000000123");
}

#[test]
fn clock_before_the_epoch_is_an_error() {
    let library = Library::new().with("Clock", clock_class());
    let time = SystemTime::UNIX_EPOCH - Duration::from_millis(1);
    let vm = Vm::new().with_time_provider(FixedTime(time));
    assert!(matches!(
        run_main_with(vm, &library, "Clock"),
        Err(RunError::Exec(ExecError::ClockOutOfRange))
    ));
}

#[test]
fn step_with_asks_for_the_clock_and_changes_nothing() {
    let library = Library::new().with("Clock", clock_class());
    let mut vm = Vm::new();
    let number = load(&mut vm, &library, "Clock").unwrap();
    let place = vm.class(number).unwrap().method_place("main", "([Ljava/lang/String;)V").unwrap();
    vm.call_method(number, place).unwrap();
    assert!(matches!(vm.step_with(None), Ok(Step::NeedClock)));
    assert_eq!(vm.depth(), 1);
    assert!(matches!(vm.step_with(Some(Some(5))), Ok(Step::Continue)));
    assert!(matches!(vm.step_with(None), Ok(Step::Continue)));
    assert!(matches!(vm.step_with(None), Ok(Step::Finished(None))));
    assert_eq!(vm.stdout(), b"5");
}

#[test]
fn step_asks_for_a_class_that_is_not_loaded() {
    let mut builder = ClassBuilder::new("Main", Some("java/lang/Object"));
    let other = builder.class("Other");
    let code = [0xbb, hi(other), lo(other), 0xb1];
    builder.method(PUBLIC | STATIC, "main", "([Ljava/lang/String;)V", Some((1, &code)));
    let library = Library::new().with("Main", builder.build());
    let mut vm = Vm::new();
    let number = load(&mut vm, &library, "Main").unwrap();
    let place = vm.class(number).unwrap().method_place("main", "([Ljava/lang/String;)V").unwrap();
    vm.call_method(number, place).unwrap();
    match vm.step().unwrap() {
        Step::NeedClass(name) => assert_eq!(name, "Other"),
        other => panic!("unexpected step: {:?}", other),
    }
    assert_eq!(vm.depth(), 1);
    assert!(matches!(
        run_main(&library, "Main"),
        Err(RunError::ClassNotFound(name)) if name == "Other"
    ));
}

#[test]
fn step_without_a_frame_fails() {
    let mut vm = Vm::new();
    assert_eq!(vm.step().unwrap_err(), ExecError::NoFrame);
}

#[test]
fn missing_super_class_fails_the_link() {
    let mut vm = Vm::new();
    let result = vm.load_class_file(&hello_class());
    assert!(matches!(result, Err(LoadError::Link(LinkError::MissingSuperClass))));
    assert_eq!(vm.find_class("Hello"), None);
}

#[test]
fn bad_magic_fails_the_load() {
    let mut bytes = hello_class();
    bytes[3] = 0xBF;
    let mut vm = Vm::new();
    assert!(matches!(
        vm.load_class_file(&bytes),
        Err(LoadError::Read(ReadError::BadMagic(0xCAFE_BABF)))
    ));
}

#[test]
fn reader_reports_what_is_wrong() {
    let bytes = hello_class();
    let read = |bytes: &[u8]| ClassReader::new(bytes).read_class_file().map(|_| ());
    assert_eq!(read(&bytes), Ok(()));
    assert_eq!(read(&bytes[..bytes.len() - 1]), Err(ReadError::UnexpectedEof));
    assert_eq!(read(&bytes[..3]), Err(ReadError::UnexpectedEof));
    assert_eq!(read(&[]), Err(ReadError::UnexpectedEof));

    // The first constant is the utf-8 entry "Hello": an unknown tag in its place.
    let mut unknown_tag = bytes.clone();
    unknown_tag[10] = 2;
    assert_eq!(read(&unknown_tag), Err(ReadError::UnknownConstantTag(2)));

    // A byte that cannot start a character.
    let mut invalid_text = bytes.clone();
    invalid_text[13] = 0xff;
    assert_eq!(read(&invalid_text), Err(ReadError::InvalidUtf8));
}

#[test]
fn reader_reports_an_attribute_without_a_name() {
    let mut builder = ClassBuilder::new("Broken", None);
    builder.code_name = 0;
    builder.method(PUBLIC, "run", "()V", Some((1, &[0xb1])));
    assert_eq!(
        ClassReader::new(&builder.build()).read_class_file().map(|_| ()),
        Err(ReadError::InvalidAttributeName(0))
    );
    let mut builder = ClassBuilder::new("Broken", None);
    builder.code_name = builder.this_class;
    builder.method(PUBLIC, "run", "()V", Some((1, &[0xb1])));
    assert_eq!(
        ClassReader::new(&builder.build()).read_class_file().map(|_| ()),
        Err(ReadError::InvalidAttributeName(2))
    );
}

#[test]
fn reader_keeps_every_entry_where_its_index_says() {
    let mut builder = ClassBuilder::new("Wide", Some("java/lang/Object"));
    let long = builder.long(-2);
    let integer = builder.integer(-7);
    let text = builder.utf8("caf\u{e9}");
    builder.field(PRIVATE | STATIC, "count", "J");
    builder.method(PUBLIC, "run", "()V", Some((1, &[0xb1])));
    let bytes = builder.build();
    let class_file = ClassReader::new(&bytes).read_class_file().unwrap();

    assert_eq!(class_file.major_version, 65);
    assert_eq!(class_file.minor_version, 0);
    assert_eq!(class_file.constant_pool.class_name(class_file.this_class).unwrap(), "Wide");
    assert_eq!(
        class_file.constant_pool.class_name(class_file.super_class).unwrap(),
        "java/lang/Object"
    );
    assert!(matches!(class_file.constant_pool.get(long), Some(ConstantInfo::Long(-2))));
    assert!(matches!(class_file.constant_pool.get(long + 1), Some(ConstantInfo::Unused)));
    assert!(matches!(class_file.constant_pool.get(integer), Some(ConstantInfo::Integer(-7))));
    assert_eq!(class_file.constant_pool.utf8(text).unwrap(), "caf\u{e9}");

    // Index zero names nothing, and the slot after a long is no value.
    assert!(class_file.constant_pool.get(0).is_none());
    assert!(class_file.constant_pool.get(1000).is_none());
    let unused = class_file.constant_pool.utf8(long + 1).unwrap_err();
    assert_eq!(unused.index, long + 1);
    assert_eq!(unused.expected, ConstantKind::Utf8);
    assert_eq!(class_file.constant_pool.class_name(0).unwrap_err().expected, ConstantKind::Class);

    assert_eq!(class_file.fields.len(), 1);
    assert!(class_file.fields[0].access_flags.contains(FieldAccessFlags::STATIC));
    assert!(class_file.fields[0].access_flags.contains(FieldAccessFlags::PRIVATE));
    assert!(!class_file.fields[0].access_flags.contains(FieldAccessFlags::PUBLIC));
    assert_eq!(class_file.constant_pool.utf8(class_file.fields[0].name_index).unwrap(), "count");

    assert_eq!(class_file.methods.len(), 1);
    assert_eq!(class_file.constant_pool.utf8(class_file.methods[0].name_index).unwrap(), "run");
    let code = class_file.methods[0].code().unwrap();
    assert_eq!(code.max_locals, 1);
    assert_eq!(code.max_stack, 8);
    assert_eq!(code.code, vec![0xb1]);
    assert!(matches!(class_file.methods[0].attributes[0], AttributeInfo::Code(_)));

    // Reading the same bytes again gives the same names.
    let again = ClassReader::new(&bytes).read_class_file().unwrap();
    assert_eq!(again.constant_pool.0.len(), class_file.constant_pool.0.len());
    for index in 1..=class_file.constant_pool.0.len() as u16 {
        assert_eq!(
            format!("{:?}", again.constant_pool.get(index)),
            format!("{:?}", class_file.constant_pool.get(index))
        );
    }
}

#[test]
fn linker_keeps_inherited_ordinals() {
    let mut base = ClassBuilder::new("Base", None);
    base.field(PUBLIC, "a", "I");
    base.field(PUBLIC | STATIC, "shared", "Z");
    base.field(PUBLIC, "b", "Ljava/lang/String;");
    let base_file = ClassReader::new(&base.build()).read_class_file().unwrap();
    let base_class = Class::new(base_file, None).unwrap();

    let mut derived = ClassBuilder::new("Derived", Some("Base"));
    derived.field(PUBLIC, "c", "[[J");
    let derived_file = ClassReader::new(&derived.build()).read_class_file().unwrap();
    let derived_class = Class::new(derived_file, Some((0, &base_class))).unwrap();

    assert_eq!(base_class.name(), "Base");
    assert_eq!(base_class.super_class(), None);
    assert_eq!(base_class.field_ordinal("a", "I"), Some(0));
    assert_eq!(base_class.field_ordinal("b", "Ljava/lang/String;"), Some(1));
    assert_eq!(base_class.field_ordinal("shared", "Z"), None);
    assert_eq!(base_class.static_field("shared", "Z"), Some(JvmValue::Boolean(false)));
    assert_eq!(base_class.static_field("a", "I"), None);

    assert_eq!(derived_class.name(), "Derived");
    assert_eq!(derived_class.super_class(), Some(0));
    assert_eq!(derived_class.field_ordinal("a", "I"), Some(0));
    assert_eq!(derived_class.field_ordinal("b", "Ljava/lang/String;"), Some(1));
    assert_eq!(derived_class.field_ordinal("c", "[[J"), Some(2));
    assert_eq!(derived_class.field_ordinal("c", "J"), None);
    let names: Vec<&str> = derived_class.fields().iter().map(|f| f.name.as_str()).collect();
    assert_eq!(names, vec!["a", "b", "c"]);
    assert!(matches!(
        derived_class.fields()[2].descriptor.field_type,
        FieldType::Array(2, BaseType::Long)
    ));
    // The statics of the super class are its own.
    assert_eq!(derived_class.static_field("shared", "Z"), None);
}

#[test]
fn linker_reports_what_is_wrong() {
    let link = |builder: &ClassBuilder, parent: Option<(usize, &Class)>| {
        let file = ClassReader::new(&builder.build()).read_class_file().unwrap();
        Class::new(file, parent).map(|_| ())
    };
    let base_file = ClassReader::new(&object_class()).read_class_file().unwrap();
    let object = Class::new(base_file, None).unwrap();

    let plain = ClassBuilder::new("Plain", Some("java/lang/Object"));
    assert!(link(&plain, Some((0, &object))).is_ok());
    assert!(matches!(link(&plain, None), Err(LinkError::MissingSuperClass)));

    let orphan = ClassBuilder::new("Orphan", Some("Missing"));
    assert!(matches!(link(&orphan, Some((0, &object))), Err(LinkError::MissingSuperClass)));

    let mut bad_field = ClassBuilder::new("BadField", None);
    bad_field.field(PUBLIC, "x", "Q");
    assert!(matches!(link(&bad_field, None), Err(LinkError::InvalidDescriptor(text)) if text == "Q"));

    let mut bad_method = ClassBuilder::new("BadMethod", None);
    bad_method.method(PUBLIC, "run", "(I", None);
    assert!(
        matches!(link(&bad_method, None), Err(LinkError::InvalidDescriptor(text)) if text == "(I")
    );

    let mut bad_code = ClassBuilder::new("BadCode", None);
    bad_code.method(PUBLIC, "run", "()V", Some((1, &[0xcb])));
    assert!(matches!(
        link(&bad_code, None),
        Err(LinkError::InvalidCode(DecodeError::UnknownOpcode(0xcb)))
    ));

    let mut bad_name = ClassBuilder::new("BadName", None);
    bad_name.this_class = 1;
    let error = link(&bad_name, None).unwrap_err();
    assert!(matches!(
        error,
        LinkError::BadConstantPoolEntry(entry)
            if entry.index == 1 && entry.expected == ConstantKind::Class
    ));
}

#[test]
fn linker_decodes_method_bodies() {
    let bytes = hello_class();
    let object_file = ClassReader::new(&object_class()).read_class_file().unwrap();
    let object = Class::new(object_file, None).unwrap();
    let file = ClassReader::new(&bytes).read_class_file().unwrap();
    let class = Class::new(file, Some((0, &object))).unwrap();

    let main = class.method("main", "([Ljava/lang/String;)V").unwrap();
    assert!(main.access_flags.contains(MethodAccessFlags::STATIC));
    assert_eq!(main.descriptor.params.len(), 1);
    assert!(main.descriptor.return_type.is_none());
    let body = main.body.as_ref().unwrap();
    assert_eq!(body.locals, 1);
    assert_eq!(body.stack_size, 8);
    assert_eq!(body.code.len(), 3);
    assert!(matches!(body.code[0], Instruction::ldc { .. }));
    assert_eq!(body.code[2], Instruction::return_(rusty_java::instructions::ReturnType::Void));

    let print = class.method("print", "(Ljava/lang/String;)V").unwrap();
    assert!(print.access_flags.contains(MethodAccessFlags::NATIVE));
    assert!(print.body.is_none());
    assert!(class.method("print", "(I)V").is_none());
    assert!(class.method("<init>", "()V").is_none());
    assert_eq!(class.index(), 2);
}

#[test]
fn synchronized_methods_are_refused() {
    let mut builder = ClassBuilder::new("Sync", Some("java/lang/Object"));
    let locked = builder.own_method("locked", "()V");
    builder.method(STATIC | SYNCHRONIZED, "locked", "()V", Some((0, &[0xb1])));
    let code = [0xb8, hi(locked), lo(locked), 0xb1];
    builder.method(PUBLIC | STATIC, "main", "([Ljava/lang/String;)V", Some((1, &code)));
    let library = Library::new().with("Sync", builder.build());
    assert!(matches!(
        run_main(&library, "Sync"),
        Err(RunError::Exec(ExecError::Unsupported(Feature::Synchronized)))
    ));
}

#[test]
fn unimplemented_instructions_are_errors() {
    let mut builder = ClassBuilder::new("Monitor", Some("java/lang/Object"));
    let code = [0x01, 0xc2, 0xb1];
    builder.method(PUBLIC | STATIC, "main", "([Ljava/lang/String;)V", Some((1, &code)));
    let library = Library::new().with("Monitor", builder.build());
    assert!(matches!(
        run_main(&library, "Monitor"),
        Err(RunError::Exec(ExecError::Unsupported(Feature::Instruction(Instruction::monitorenter))))
    ));
}

#[test]
fn running_off_the_end_overflows_the_program_counter() {
    let mut builder = ClassBuilder::new("Open", Some("java/lang/Object"));
    builder.method(PUBLIC | STATIC, "main", "([Ljava/lang/String;)V", Some((1, &[0x03])));
    let library = Library::new().with("Open", builder.build());
    assert!(matches!(
        run_main(&library, "Open"),
        Err(RunError::Exec(ExecError::ProgramCounterOverflow))
    ));
}

#[test]
fn branch_at_the_end_of_a_method_lands_inside_it() {
    // The last instruction branches back to the return before it.
    let mut builder = ClassBuilder::new("Loop", Some("java/lang/Object"));
    let print = builder.print("I");
    let code = [
        0xa7, 0x00, 0x08, // 0: goto 8
        0x05, // 3: iconst_2
        0xb8, hi(print), lo(print), // 4
        0xb1, // 7: return
        0xa7, 0xff, 0xfb, // 8: goto 3
    ];
    builder.method(PUBLIC | STATIC, "main", "([Ljava/lang/String;)V", Some((1, &code)));
    let library = Library::new().with("Loop", builder.build());
    assert_eq!(run_main(&library, "Loop").unwrap(), "2");
}

#[test]
fn division_by_zero_is_an_error() {
    let mut builder = ClassBuilder::new("Div", Some("java/lang/Object"));
    let code = [0x04, 0x03, 0x6c, 0xb1];
    builder.method(PUBLIC | STATIC, "main", "([Ljava/lang/String;)V", Some((1, &code)));
    let library = Library::new().with("Div", builder.build());
    assert!(matches!(
        run_main(&library, "Div"),
        Err(RunError::Exec(ExecError::DivisionByZero))
    ));
}

#[test]
fn subtraction_takes_the_second_operand_from_the_top() {
    let mut builder = ClassBuilder::new("Sub", Some("java/lang/Object"));
    let print = builder.print("I");
    let code = [
        0x10, 10, 0x06, 0x64, // 10 - 3
        0xb8, hi(print), lo(print),
        0x10, 20, 0x07, 0x6c, // 20 / 4
        0xb8, hi(print), lo(print),
        0x10, 0xf9, 0x05, 0x70, // -7 % 2
        0xb8, hi(print), lo(print),
        0xb1,
    ];
    builder.method(PUBLIC | STATIC, "main", "([Ljava/lang/String;)V", Some((1, &code)));
    let library = Library::new().with("Sub", builder.build());
    assert_eq!(run_main(&library, "Sub").unwrap(), "75-1");
}

#[test]
fn arguments_become_the_first_locals_in_order() {
    let mut builder = ClassBuilder::new("Args", Some("java/lang/Object"));
    let print = builder.print("I");
    let minus = builder.own_method("minus", "(II)I");
    let minus_code = [0x1a, 0x1b, 0x64, 0xac]; // iload_0; iload_1; isub; ireturn
    builder.method(STATIC, "minus", "(II)I", Some((2, &minus_code)));
    let code = [
        0x10, 50, 0x10, 8,
        0xb8, hi(minus), lo(minus),
        0xb8, hi(print), lo(print),
        0xb1,
    ];
    builder.method(PUBLIC | STATIC, "main", "([Ljava/lang/String;)V", Some((1, &code)));
    let library = Library::new().with("Args", builder.build());
    assert_eq!(run_main(&library, "Args").unwrap(), "42");
}

#[test]
fn missing_members_are_errors() {
    let mut builder = ClassBuilder::new("Lost", Some("java/lang/Object"));
    let nowhere = builder.own_method("nowhere", "()V");
    let code = [0xb8, hi(nowhere), lo(nowhere), 0xb1];
    builder.method(PUBLIC | STATIC, "main", "([Ljava/lang/String;)V", Some((1, &code)));
    let library = Library::new().with("Lost", builder.build());
    assert!(matches!(run_main(&library, "Lost"), Err(RunError::Exec(ExecError::NoSuchMethod))));

    let mut builder = ClassBuilder::new("Lost", Some("java/lang/Object"));
    let nothing = builder.own_field("nothing", "I");
    let code = [0xb2, hi(nothing), lo(nothing), 0xb1];
    builder.method(PUBLIC | STATIC, "main", "([Ljava/lang/String;)V", Some((1, &code)));
    let library = Library::new().with("Lost", builder.build());
    assert!(matches!(run_main(&library, "Lost"), Err(RunError::Exec(ExecError::NoSuchField))));
}

#[test]
fn array_errors() {
    let run = |code: &[u8]| {
        let mut builder = ClassBuilder::new("Arr", Some("java/lang/Object"));
        builder.method(PUBLIC | STATIC, "main", "([Ljava/lang/String;)V", Some((2, code)));
        run_main(&Library::new().with("Arr", builder.build()), "Arr")
    };
    // new int[-1]
    assert!(matches!(
        run(&[0x02, 0xbc, 10, 0xb1]),
        Err(RunError::Exec(ExecError::NegativeArraySize))
    ));
    // new int[1][1] = 0
    assert!(matches!(
        run(&[0x04, 0xbc, 10, 0x04, 0x03, 0x4f, 0xb1]),
        Err(RunError::Exec(ExecError::ArrayIndexOutOfBounds))
    ));
    // a long store into an int array
    assert!(matches!(
        run(&[0x04, 0xbc, 10, 0x03, 0x09, 0x50, 0xb1]),
        Err(RunError::Exec(ExecError::ArrayTypeMismatch))
    ));
    // an int stored by the store for longs
    assert!(matches!(
        run(&[0x04, 0xbc, 11, 0x03, 0x03, 0x50, 0xb1]),
        Err(RunError::Exec(ExecError::TypeMismatch))
    ));
    // null.length
    assert!(matches!(
        run(&[0x01, 0xbe, 0xb1]),
        Err(RunError::Exec(ExecError::NullReference))
    ));
    // an empty array has length zero
    assert!(run(&[0x03, 0xbc, 10, 0xbe, 0x3c, 0xb1]).is_ok());
}

#[test]
fn native_method_that_is_no_intrinsic_has_no_body() {
    let mut builder = ClassBuilder::new("Native", Some("java/lang/Object"));
    builder.method(PUBLIC | STATIC | NATIVE, "mystery", "()V", None);
    let mystery = builder.own_method("mystery", "()V");
    let code = [0xb8, hi(mystery), lo(mystery), 0xb1];
    builder.method(PUBLIC | STATIC, "main", "([Ljava/lang/String;)V", Some((1, &code)));
    let library = Library::new().with("Native", builder.build());
    assert!(matches!(
        run_main(&library, "Native"),
        Err(RunError::Exec(ExecError::MissingMethodBody))
    ));
}

#[test]
fn method_with_an_intrinsic_name_and_a_body_runs_its_body() {
    // `print` is an intrinsic only where the method is native.
    let mut builder = ClassBuilder::new("Quiet", Some("java/lang/Object"));
    builder.method(PUBLIC | STATIC, "print", "(I)V", Some((1, &[0xb1])));
    let print = builder.own_method("print", "(I)V");
    let code = [0x08, 0xb8, hi(print), lo(print), 0xb1];
    builder.method(PUBLIC | STATIC, "main", "([Ljava/lang/String;)V", Some((1, &code)));
    let library = Library::new().with("Quiet", builder.build());
    assert_eq!(run_main(&library, "Quiet").unwrap(), "");
}

#[test]
fn register_natives_does_nothing() {
    let mut builder = ClassBuilder::new("Reg", Some("java/lang/Object"));
    let print = builder.print("I");
    builder.method(PRIVATE | STATIC | NATIVE, "registerNatives", "()V", None);
    let register = builder.own_method("registerNatives", "()V");
    let code = [
        0x07, // iconst_4
        0xb8, hi(register), lo(register),
        0xb8, hi(print), lo(print),
        0xb1,
    ];
    builder.method(PUBLIC | STATIC, "main", "([Ljava/lang/String;)V", Some((1, &code)));
    let library = Library::new().with("Reg", builder.build());
    assert_eq!(run_main(&library, "Reg").unwrap(), "4");
}

#[test]
fn a_class_is_taken_in_once() {
    let mut vm = Vm::new();
    let object = vm.load_class_file(&object_class()).unwrap();
    assert_eq!(object, 0);
    assert_eq!(vm.find_class("java/lang/Object"), Some(0));
    let counter = vm.load_class_file(&counter_class(true)).unwrap();
    assert_eq!(counter, 1);
    // The initialiser waits on the call stack.
    assert_eq!(vm.depth(), 1);
    // Taking the class in again changes nothing.
    assert_eq!(vm.load_class_file(&counter_class(true)).unwrap(), 1);
    assert_eq!(vm.load_class_file(&object_class()).unwrap(), 0);
    assert_eq!(vm.depth(), 1);
    assert!(vm.class(2).is_none());
    assert_eq!(vm.class(1).unwrap().name(), "Counter");
    assert_eq!(vm.class(1).unwrap().static_field("n", "I"), Some(JvmValue::Int(0)));
    // bipush 40; putstatic n; return
    assert!(matches!(vm.step(), Ok(Step::Continue)));
    assert!(matches!(vm.step(), Ok(Step::Continue)));
    assert!(matches!(vm.step(), Ok(Step::Finished(None))));
    assert_eq!(vm.depth(), 0);
    assert_eq!(vm.class(1).unwrap().static_field("n", "I"), Some(JvmValue::Int(40)));
}

#[test]
fn methods_are_found_up_the_super_chain() {
    let library = Library::new()
        .with("Animal", animal_class("Animal", "java/lang/Object", "growl"))
        .with("Dog", animal_class("Dog", "Animal", "bark"));
    let mut vm = Vm::new();
    let dog = load(&mut vm, &library, "Dog").unwrap();
    let animal = vm.find_class("Animal").unwrap();
    let object = vm.find_class("java/lang/Object").unwrap();
    assert_eq!((object, animal, dog), (0, 1, 2));
    assert_eq!(vm.class(dog).unwrap().super_class(), Some(animal));

    let sound = "()Ljava/lang/String;";
    let own = vm.class(dog).unwrap().method_place("sound", sound).unwrap();
    assert_eq!(vm.lookup_method(dog, "sound", sound), Some((dog, own)));
    let inherited = vm.class(animal).unwrap().method_place("sound", sound).unwrap();
    assert_eq!(vm.lookup_method(animal, "sound", sound), Some((animal, inherited)));
    assert_eq!(vm.lookup_method(object, "sound", sound), None);
    assert_eq!(vm.lookup_method(dog, "sound", "()V"), None);
    assert_eq!(vm.lookup_method(99, "sound", sound), None);

    assert_eq!(vm.call_method(dog, 99), Err(ExecError::NoSuchMethod));
    assert_eq!(vm.call_method(99, 0), Err(ExecError::NoSuchMethod));
    assert_eq!(vm.depth(), 0);
}

#[test]
fn constants_give_up_their_payload_by_kind() {
    let mut builder = ClassBuilder::new("Kinds", Some("java/lang/Object"));
    let text = builder.string("hi");
    let field = builder.own_field("f", "I");
    let method = builder.own_method("m", "()V");
    let bytes = builder.build();
    let class_file = ClassReader::new(&bytes).read_class_file().unwrap();
    let pool = &class_file.constant_pool;

    let class = pool.get(class_file.this_class).unwrap();
    assert_eq!(class.try_as_class_ref().unwrap().name_index, 1);
    assert!(class.try_as_utf_8_ref().is_none());
    assert!(class.try_as_string_ref().is_none());
    assert_eq!(pool.get(1).unwrap().try_as_utf_8_ref().unwrap(), "Kinds");
    assert!(pool.get(1).unwrap().try_as_class_ref().is_none());

    let string = pool.get(text).unwrap().try_as_string_ref().unwrap();
    assert_eq!(pool.utf8(string.string_index).unwrap(), "hi");
    assert_eq!(pool.string(text).unwrap(), "hi");
    assert_eq!(pool.string(1).unwrap_err().expected, ConstantKind::String);

    let field_ref = pool.get(field).unwrap().try_as_field_ref_ref().unwrap();
    assert_eq!(field_ref.class_index, class_file.this_class);
    assert!(pool.get(field).unwrap().try_as_method_ref_ref().is_none());
    let name_and_type =
        pool.get(field_ref.name_and_type_index).unwrap().try_as_name_and_type_ref().unwrap();
    assert_eq!(pool.utf8(name_and_type.name_index).unwrap(), "f");
    assert_eq!(pool.utf8(name_and_type.descriptor_index).unwrap(), "I");
    let (name, descriptor) = pool.name_and_type(field_ref.name_and_type_index).unwrap();
    assert_eq!((name.as_str(), descriptor.as_str()), ("f", "I"));

    let member = pool.field_ref(field).unwrap();
    assert_eq!((member.class_index, member.name.as_str(), member.descriptor.as_str()), (2, "f", "I"));
    assert_eq!(pool.field_ref(method).unwrap_err().expected, ConstantKind::FieldRef);
    let member = pool.method_ref(method).unwrap();
    assert_eq!((member.name.as_str(), member.descriptor.as_str()), ("m", "()V"));
    assert_eq!(pool.method_ref(field).unwrap_err().expected, ConstantKind::MethodRef);
    assert!(pool.get(method).unwrap().try_as_method_ref_ref().is_some());
    assert_eq!(pool.name_and_type(1).unwrap_err().expected, ConstantKind::NameAndType);
}

#[test]
fn reader_reads_the_known_attributes() {
    let mut builder = ClassBuilder::new("Attrs", None);
    let source_file = builder.utf8("SourceFile");
    let lines = builder.utf8("LineNumberTable");
    let inner = builder.utf8("InnerClasses");
    let bootstrap = builder.utf8("BootstrapMethods");
    let custom = builder.utf8("Deprecated");
    let mut bytes = builder.build();
    // Replace the empty attribute table of the class.
    bytes.truncate(bytes.len() - 2);
    put_u16(&mut bytes, 5);
    // SourceFile: its length field is not looked at.
    put_u16(&mut bytes, source_file);
    put_u32(&mut bytes, 99);
    put_u16(&mut bytes, 7);
    // LineNumberTable with two entries.
    put_u16(&mut bytes, lines);
    put_u32(&mut bytes, 10);
    put_u16(&mut bytes, 2);
    for v in [0u16, 10, 4, 11] {
        put_u16(&mut bytes, v);
    }
    // InnerClasses with one entry; undefined flag bits are dropped.
    put_u16(&mut bytes, inner);
    put_u32(&mut bytes, 10);
    put_u16(&mut bytes, 1);
    for v in [1u16, 2, 3, 0xffff] {
        put_u16(&mut bytes, v);
    }
    // BootstrapMethods with two methods, of two and of no arguments.
    put_u16(&mut bytes, bootstrap);
    put_u32(&mut bytes, 12);
    put_u16(&mut bytes, 2);
    for v in [9u16, 2, 20, 21, 8, 0] {
        put_u16(&mut bytes, v);
    }
    // An attribute of another name is kept as its bytes.
    put_u16(&mut bytes, custom);
    put_u32(&mut bytes, 3);
    bytes.extend_from_slice(&[1, 2, 3]);

    let class_file = ClassReader::new(&bytes).read_class_file().unwrap();
    assert_eq!(class_file.attributes.len(), 5);
    match &class_file.attributes[0] {
        AttributeInfo::SourceFile(source) => assert_eq!(source.sourcefile_index, 7),
        other => panic!("unexpected: {:?}", other),
    }
    match &class_file.attributes[1] {
        AttributeInfo::LineNumberTable(table) => {
            assert_eq!(table.line_number_table.len(), 2);
            assert_eq!(table.line_number_table[0].start_pc, 0);
            assert_eq!(table.line_number_table[0].line_number, 10);
            assert_eq!(table.line_number_table[1].start_pc, 4);
            assert_eq!(table.line_number_table[1].line_number, 11);
        }
        other => panic!("unexpected: {:?}", other),
    }
    match &class_file.attributes[2] {
        AttributeInfo::InnerClasses(classes) => {
            assert_eq!(classes.classes.len(), 1);
            assert_eq!(classes.classes[0].inner_class_info_index, 1);
            assert_eq!(classes.classes[0].outer_class_info_index, 2);
            assert_eq!(classes.classes[0].inner_name_index, 3);
            assert_eq!(classes.classes[0].inner_class_access_flags.bits(), 0x761f);
        }
        other => panic!("unexpected: {:?}", other),
    }
    match &class_file.attributes[3] {
        AttributeInfo::BootstrapMethods(methods) => {
            assert_eq!(methods.bootstrap_methods.len(), 2);
            assert_eq!(methods.bootstrap_methods[0].bootstrap_method_ref, 9);
            assert_eq!(methods.bootstrap_methods[0].bootstrap_arguments, vec![20, 21]);
            assert_eq!(methods.bootstrap_methods[1].bootstrap_method_ref, 8);
            assert!(methods.bootstrap_methods[1].bootstrap_arguments.is_empty());
        }
        other => panic!("unexpected: {:?}", other),
    }
    match &class_file.attributes[4] {
        AttributeInfo::Custom(attribute) => {
            assert_eq!(attribute.attribute_name_index, custom);
            assert_eq!(attribute.info, vec![1, 2, 3]);
        }
        other => panic!("unexpected: {:?}", other),
    }
    // A custom attribute that announces more bytes than there are.
    let cut = &bytes[..bytes.len() - 1];
    assert_eq!(
        ClassReader::new(cut).read_class_file().map(|_| ()),
        Err(ReadError::UnexpectedEof)
    );
}

#[test]
fn access_flags() {
    let flags = MethodAccessFlags::from_bits_truncate(0xffff);
    assert_eq!(flags.bits(), MethodAccessFlags::ALL);
    assert_eq!(flags.bits(), 0x1dff);
    let flags = MethodAccessFlags::from_bits_truncate(0x0109);
    assert!(flags.contains(MethodAccessFlags::PUBLIC));
    assert!(flags.contains(MethodAccessFlags::STATIC));
    assert!(flags.contains(MethodAccessFlags::NATIVE));
    assert!(flags.contains(MethodAccessFlags::STATIC | MethodAccessFlags::NATIVE));
    assert!(!flags.contains(MethodAccessFlags::PRIVATE));
    assert!(!flags.contains(MethodAccessFlags::STATIC | MethodAccessFlags::PRIVATE));
    assert!(flags.contains(0));
    assert_eq!(FieldAccessFlags::from_bits_truncate(0xffff).bits(), 0x50df);
    assert_eq!(
        rusty_java::class_file::ClassAccessFlags::from_bits_truncate(0xffff).bits(),
        0xf631
    );
}

#[test]
fn new_array_then_length_for_every_element_type() {
    for tag in 4u8..=11 {
        let mut builder = ClassBuilder::new("Len", Some("java/lang/Object"));
        let print = builder.print("I");
        let code = [0x10, 9, 0xbc, tag, 0xbe, 0xb8, hi(print), lo(print), 0xb1];
        builder.method(PUBLIC | STATIC, "main", "([Ljava/lang/String;)V", Some((1, &code)));
        let library = Library::new().with("Len", builder.build());
        assert_eq!(run_main(&library, "Len").unwrap(), "9");
    }
}

#[test]
fn arrays_of_narrow_elements_keep_the_low_bits() {
    let mut builder = ClassBuilder::new("Narrow", Some("java/lang/Object"));
    let print = builder.print("Ljava/lang/Object;");
    let code = [
        0x05, 0xbc, 8, 0x4c, // byte[2]
        0x2b, 0x03, 0x11, 0x01, 0x2c, 0x54, // a[0] = (byte) 300
        0x2b, 0x04, 0x10, 0x80, 0x54, // a[1] = -128
        0x2b, 0xb8, hi(print), lo(print),
        0x05, 0xbc, 4, 0x4c, // boolean[2]
        0x2b, 0x03, 0x06, 0x54, // a[0] = 3
        0x2b, 0x04, 0x05, 0x54, // a[1] = 2
        0x2b, 0xb8, hi(print), lo(print),
        0x04, 0xbc, 5, 0x4c, // char[1]
        0x2b, 0x03, 0x02, 0x55, // a[0] = (char) -1
        0x2b, 0xb8, hi(print), lo(print),
        0x04, 0xbc, 9, 0x4c, // short[1]
        0x2b, 0x03, 0x11, 0x80, 0x00, 0x56, // a[0] = -32768
        0x2b, 0xb8, hi(print), lo(print),
        0x04, 0xbc, 11, 0x4c, // long[1]
        0x2b, 0x03, 0x0a, 0x50, // a[0] = 1L
        0x2b, 0xb8, hi(print), lo(print),
        0xb1,
    ];
    builder.method(PUBLIC | STATIC, "main", "([Ljava/lang/String;)V", Some((2, &code)));
    let library = Library::new().with("Narrow", builder.build());
    assert_eq!(
        run_main(&library, "Narrow").unwrap(),
        "[44, -128][true, false][65535][-32768][1]"
    );
}

#[test]
fn arrays_of_floats_cannot_be_printed() {
    let mut builder = ClassBuilder::new("Floats", Some("java/lang/Object"));
    let print = builder.print("Ljava/lang/Object;");
    let code = [0x04, 0xbc, 6, 0xb8, hi(print), lo(print), 0xb1];
    builder.method(PUBLIC | STATIC, "main", "([Ljava/lang/String;)V", Some((2, &code)));
    let library = Library::new().with("Floats", builder.build());
    assert!(matches!(run_main(&library, "Floats"), Err(RunError::Exec(ExecError::Unprintable))));
}

#[test]
fn long_arithmetic_in_a_program() {
    let mut builder = ClassBuilder::new("Longs", Some("java/lang/Object"));
    let print = builder.print("J");
    let code = [
        0x0a, 0x0a, 0x61, // 1 + 1
        0x0a, 0x61, // + 1
        0x75, // negate: -3
        0x0a, 0x0a, 0x61, // 2
        0x6d, // -3 / 2
        0xb8, hi(print), lo(print),
        0x0a, 0x0a, 0x61, 0x0a, 0x61, 0x75, // -3
        0x0a, 0x0a, 0x61, // 2
        0x71, // -3 % 2
        0xb8, hi(print), lo(print),
        0x0a, 0x0a, 0x61, 0x0a, 0x0a, 0x61, 0x69, // 2 * 2
        0x0a, 0x65, // - 1
        0xb8, hi(print), lo(print),
        0xb1,
    ];
    builder.method(PUBLIC | STATIC, "main", "([Ljava/lang/String;)V", Some((1, &code)));
    let library = Library::new().with("Longs", builder.build());
    assert_eq!(run_main(&library, "Longs").unwrap(), "-1-13");
}

#[test]
fn field_declared_again_gets_a_cell_of_its_own() {
    let mut base = ClassBuilder::new("Base", None);
    base.field(PUBLIC, "x", "I");
    let base_file = ClassReader::new(&base.build()).read_class_file().unwrap();
    let base_class = Class::new(base_file, None).unwrap();

    let mut derived = ClassBuilder::new("Derived", Some("Base"));
    derived.field(PUBLIC, "x", "I");
    derived.field(PUBLIC, "y", "I");
    let derived_file = ClassReader::new(&derived.build()).read_class_file().unwrap();
    let derived_class = Class::new(derived_file, Some((0, &base_class))).unwrap();

    assert_eq!(base_class.field_ordinal("x", "I"), Some(0));
    // The name now leads to the field of the subclass; no two fields share a cell.
    assert_eq!(derived_class.field_ordinal("x", "I"), Some(1));
    assert_eq!(derived_class.field_ordinal("y", "I"), Some(2));
    assert_eq!(derived_class.fields().len(), 3);
}

#[test]
fn run_stops_where_it_is_told() {
    let library = Library::new().with("Counter", counter_class(true));
    let mut vm = Vm::new();
    vm.load_class_file(&object_class()).unwrap();
    let counter = vm.load_class_file(&counter_class(true)).unwrap();
    assert_eq!(vm.depth(), 1);
    // Not deeper than the floor: nothing to do.
    assert!(matches!(vm.run(1, 10), Ok(Run::Returned)));
    assert_eq!(vm.depth(), 1);
    // Out of fuel after one step of three.
    assert!(matches!(vm.run(0, 1), Ok(Run::OutOfFuel)));
    assert_eq!(vm.depth(), 1);
    assert!(matches!(vm.run(0, 0), Ok(Run::OutOfFuel)));
    assert!(matches!(vm.run(0, 10), Ok(Run::Finished(None))));
    assert_eq!(vm.depth(), 0);
    assert!(matches!(vm.run(0, 10), Ok(Run::Returned)));

    // A call above a waiting frame returns to it.
    let main = vm.class(counter).unwrap().method_place("main", "([Ljava/lang/String;)V").unwrap();
    let inc = vm.class(counter).unwrap().method_place("inc", "()V").unwrap();
    vm.call_method(counter, main).unwrap();
    vm.call_method(counter, inc).unwrap();
    assert_eq!(vm.depth(), 2);
    assert!(matches!(vm.run(1, 100), Ok(Run::Returned)));
    assert_eq!(vm.depth(), 1);
    assert_eq!(vm.class(counter).unwrap().static_field("n", "I"), Some(JvmValue::Int(41)));
    assert!(matches!(vm.run(0, 100), Ok(Run::Finished(None))));
    assert_eq!(vm.take_stdout(), b"43");
    let _ = library;
}

#[test]
fn run_hands_on_what_a_step_asks_for() {
    let library = Library::new().with("Clock", clock_class());
    let mut vm = Vm::new();
    let number = load(&mut vm, &library, "Clock").unwrap();
    let place = vm.class(number).unwrap().method_place("main", "([Ljava/lang/String;)V").unwrap();
    vm.call_method(number, place).unwrap();
    assert!(matches!(vm.run(0, 100), Ok(Run::NeedClock)));
    assert!(matches!(vm.step_with(Some(Some(77))), Ok(Step::Continue)));
    assert!(matches!(vm.run(0, 100), Ok(Run::Finished(None))));
    assert_eq!(vm.stdout(), b"77");
    assert!(matches!(vm.run(5, 1), Ok(Run::Returned)));
}
