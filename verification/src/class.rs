//! The class linker.
//!
//! Linking turns a parsed class file into a [`Class`]: the class's name, its
//! place under its super class, the layout of its instances, its static
//! slots with their default values, and its methods with their code decoded.
//! The instance fields of the super class come first in the layout, under the
//! ordinals they have there; the class's own instance fields follow.

use crate::class_file::constant_pool::{
    pool_class_name, pool_utf8, BadConstantPoolEntry, ConstantPool,
};
use crate::class_file::{
    first_code, AttributeInfoView, ClassFile, ClassFileView, FieldAccessFlags, MethodAccessFlags, MethodInfo, };
pub use crate::decode::decode_instructions;
use crate::decode::{decoded, DecodeError};
use crate::descriptor::{
    field_descriptor_of, method_descriptor_of, parse_field_descriptor, parse_method_descriptor,
    FieldDescriptor, FieldTypeView, MethodDescriptor, MethodDescriptorView,
};
use crate::instructions::Instruction;
use crate::symbols::{
    table_clone, table_entries, table_get, table_insert, table_lookup, table_new,
    MemberKey, MemberTable,
};
use crate::text::str_eq;
use crate::value::{default_of, default_value, JvmValue};
use vstd::prelude::*;

verus! {

/// An instance field of a linked class.
#[derive(Debug)]
pub struct Field {
    pub name: String,
    pub descriptor: FieldDescriptor,
    pub access_flags: FieldAccessFlags,
}

/// [`Field`] as contracts see it.
pub struct FieldView {
    pub name: Seq<char>,
    pub descriptor: FieldTypeView,
    pub access_flags: FieldAccessFlags,
}

impl View for Field {
    type V = FieldView;

    open spec fn view(&self) -> FieldView {
        FieldView {
            name: self.name@,
            descriptor: self.descriptor@,
            access_flags: self.access_flags,
        }
    }
}

impl Field {
    /// A copy of this field.
    pub fn duplicate(&self) -> (r: Field)
        ensures
            r@ == self@,
    {
        Field {
            name: self.name.clone(),
            descriptor: self.descriptor.duplicate(),
            access_flags: self.access_flags,
        }
    }
}

/// The code of a method, decoded.
#[derive(Debug)]
pub struct MethodBody {
    pub locals: usize,
    pub stack_size: usize,
    pub code: Vec<Instruction>,
}

/// [`MethodBody`] as contracts see it.
pub struct MethodBodyView {
    pub locals: usize,
    pub stack_size: usize,
    pub code: Seq<Instruction>,
}

impl View for MethodBody {
    type V = MethodBodyView;

    open spec fn view(&self) -> MethodBodyView {
        MethodBodyView { locals: self.locals, stack_size: self.stack_size, code: self.code@ }
    }
}

/// A method of a linked class. It has no body if it is abstract or native.
#[derive(Debug)]
pub struct Method {
    pub descriptor: MethodDescriptor,
    pub access_flags: MethodAccessFlags,
    pub body: Option<MethodBody>,
}

/// [`Method`] as contracts see it.
pub struct MethodView {
    pub descriptor: MethodDescriptorView,
    pub access_flags: MethodAccessFlags,
    pub body: Option<MethodBodyView>,
}

impl View for Method {
    type V = MethodView;

    open spec fn view(&self) -> MethodView {
        MethodView {
            descriptor: self.descriptor@,
            access_flags: self.access_flags,
            body: match self.body {
                Some(body) => Some(body@),
                None => None,
            },
        }
    }
}

/// Why a class file could not be linked.
#[derive(Debug)]
pub enum LinkError {
    /// The class names a super class, and the class handed in as its super
    /// class is missing or has another name.
    MissingSuperClass,
    /// A name or a descriptor is not where the class file says it is.
    BadConstantPoolEntry(BadConstantPoolEntry),
    /// A field or a method has this text for a descriptor, and it is none.
    InvalidDescriptor(String),
    /// The code of a method cannot be decoded.
    InvalidCode(DecodeError),
}

/// [`LinkError`] as contracts see it.
pub enum LinkErrorView {
    MissingSuperClass,
    BadConstantPoolEntry(BadConstantPoolEntry),
    InvalidDescriptor(Seq<char>),
    InvalidCode(DecodeError),
}

impl View for LinkError {
    type V = LinkErrorView;

    open spec fn view(&self) -> LinkErrorView {
        match self {
            LinkError::MissingSuperClass => LinkErrorView::MissingSuperClass,
            LinkError::BadConstantPoolEntry(e) => LinkErrorView::BadConstantPoolEntry(*e),
            LinkError::InvalidDescriptor(text) => LinkErrorView::InvalidDescriptor(text@),
            LinkError::InvalidCode(e) => LinkErrorView::InvalidCode(*e),
        }
    }
}

/// The layout of the instances of a class: their fields in order, and the
/// ordinal under which each (name, descriptor) is found.
pub struct Layout {
    pub fields: Seq<FieldView>,
    pub ordinals: Map<MemberKey, usize>,
}

/// The static slots of a class: their values, and the slot under which each
/// (name, descriptor) is found.
pub struct Statics {
    pub values: Seq<JvmValue>,
    pub slots: Map<MemberKey, usize>,
}

/// The methods of a class, and the place of each (name, descriptor) among
/// them.
pub struct Methods {
    pub methods: Seq<MethodView>,
    pub places: Map<MemberKey, usize>,
}

/// A linked class as contracts see it.
pub struct ClassView {
    pub name: Seq<char>,
    pub class_file: ClassFileView,
    /// The number of the super class in the registry.
    pub super_class: Option<usize>,
    pub layout: Layout,
    pub methods: Methods,
    pub statics: Statics,
}

/// The name, the descriptor text and the type of field `i` of the class
/// file.
pub open spec fn field_to_link(class_file: ClassFileView, i: int) -> Result<
    (MemberKey, FieldTypeView),
    LinkErrorView,
> {
    let field = class_file.fields[i];
    match pool_utf8(class_file.constant_pool, field.name_index) {
        Err(e) => Err(LinkErrorView::BadConstantPoolEntry(e)),
        Ok(name) => match pool_utf8(class_file.constant_pool, field.descriptor_index) {
            Err(e) => Err(LinkErrorView::BadConstantPoolEntry(e)),
            Ok(text) => match field_descriptor_of(text) {
                None => Err(LinkErrorView::InvalidDescriptor(text)),
                Some(field_type) => Ok(((name, text), field_type)),
            },
        },
    }
}

/// The layout `done` extended by the instance fields of the class file from
/// field `i` on. The ordinal of a field is its place in the layout: the
/// number of fields that stand before it.
pub open spec fn layout_from(class_file: ClassFileView, i: int, done: Layout) -> Result<
    Layout,
    LinkErrorView,
>
    decreases class_file.fields.len() - i,
{
    if i < 0 || i >= class_file.fields.len() {
        Ok(done)
    } else if class_file.fields[i].access_flags.has(FieldAccessFlags::STATIC) {
        layout_from(class_file, i + 1, done)
    } else {
        match field_to_link(class_file, i) {
            Err(e) => Err(e),
            Ok((key, field_type)) => layout_from(
                class_file,
                i + 1,
                Layout {
                    fields: done.fields.push(
                        FieldView {
                            name: key.0,
                            descriptor: field_type,
                            access_flags: class_file.fields[i].access_flags,
                        },
                    ),
                    ordinals: done.ordinals.insert(key, done.fields.len() as usize),
                },
            ),
        }
    }
}

/// The static slots `done` extended by those of the static fields of the
/// class file from field `i` on, each with the default value of its type.
pub open spec fn statics_from(class_file: ClassFileView, i: int, done: Statics) -> Result<
    Statics,
    LinkErrorView,
>
    decreases class_file.fields.len() - i,
{
    if i < 0 || i >= class_file.fields.len() {
        Ok(done)
    } else if !class_file.fields[i].access_flags.has(FieldAccessFlags::STATIC) {
        statics_from(class_file, i + 1, done)
    } else {
        match field_to_link(class_file, i) {
            Err(e) => Err(e),
            Ok((key, field_type)) => statics_from(
                class_file,
                i + 1,
                Statics {
                    values: done.values.push(default_of(field_type)),
                    slots: done.slots.insert(key, done.values.len() as usize),
                },
            ),
        }
    }
}

/// The body of a method with the given attributes: none without a `Code`
/// attribute, else the decoded code of the first one.
pub open spec fn body_to_link(attributes: Seq<AttributeInfoView>) -> Result<
    Option<MethodBodyView>,
    LinkErrorView,
> {
    match first_code(attributes) {
        Some(AttributeInfoView::Code { max_stack, max_locals, code, .. }) => match decoded(code) {
            Err(e) => Err(LinkErrorView::InvalidCode(e)),
            Ok(instructions) => Ok(
                Some(
                    MethodBodyView {
                        locals: max_locals as usize,
                        stack_size: max_stack as usize,
                        code: instructions,
                    },
                ),
            ),
        },
        _ => Ok(None),
    }
}

/// The name, the descriptor text and the linked form of method `i` of the
/// class file.
pub open spec fn method_to_link(class_file: ClassFileView, i: int) -> Result<
    (MemberKey, MethodView),
    LinkErrorView,
> {
    let method = class_file.methods[i];
    match pool_utf8(class_file.constant_pool, method.name_index) {
        Err(e) => Err(LinkErrorView::BadConstantPoolEntry(e)),
        Ok(name) => match pool_utf8(class_file.constant_pool, method.descriptor_index) {
            Err(e) => Err(LinkErrorView::BadConstantPoolEntry(e)),
            Ok(text) => match method_descriptor_of(text) {
                None => Err(LinkErrorView::InvalidDescriptor(text)),
                Some(descriptor) => match body_to_link(method.attributes) {
                    Err(e) => Err(e),
                    Ok(body) => Ok(
                        (
                            (name, text),
                            MethodView { descriptor, access_flags: method.access_flags, body },
                        ),
                    ),
                },
            },
        },
    }
}

/// The methods `done` extended by those of the class file from method `i`
/// on.
pub open spec fn methods_from(class_file: ClassFileView, i: int, done: Methods) -> Result<
    Methods,
    LinkErrorView,
>
    decreases class_file.methods.len() - i,
{
    if i < 0 || i >= class_file.methods.len() {
        Ok(done)
    } else {
        match method_to_link(class_file, i) {
            Err(e) => Err(e),
            Ok((key, method)) => methods_from(
                class_file,
                i + 1,
                Methods {
                    methods: done.methods.push(method),
                    places: done.places.insert(key, done.methods.len() as usize),
                },
            ),
        }
    }
}

/// The super class that a class file is linked under: none if the class
/// file names none, else the class handed in, which must have the name that
/// the class file gives.
pub open spec fn super_to_link(
    class_file: ClassFileView,
    super_class: Option<(usize, ClassView)>,
) -> Result<Option<(usize, ClassView)>, LinkErrorView> {
    if class_file.super_class == 0 {
        Ok(None)
    } else {
        match pool_class_name(class_file.constant_pool, class_file.super_class) {
            Err(e) => Err(LinkErrorView::BadConstantPoolEntry(e)),
            Ok(name) => match super_class {
                Some((number, class)) => if class.name == name {
                    Ok(Some((number, class)))
                } else {
                    Err(LinkErrorView::MissingSuperClass)
                },
                None => Err(LinkErrorView::MissingSuperClass),
            },
        }
    }
}

/// The layout without fields.
pub open spec fn empty_layout() -> Layout {
    Layout { fields: Seq::empty(), ordinals: Map::empty() }
}

/// What a class file links to under the given super class.
pub open spec fn linked(class_file: ClassFileView, super_class: Option<(usize, ClassView)>) -> Result<
    ClassView,
    LinkErrorView,
> {
    match pool_class_name(class_file.constant_pool, class_file.this_class) {
        Err(e) => Err(LinkErrorView::BadConstantPoolEntry(e)),
        Ok(name) => match super_to_link(class_file, super_class) {
            Err(e) => Err(e),
            Ok(parent) => match layout_from(
                class_file,
                0,
                match parent {
                    Some((_, class)) => class.layout,
                    None => empty_layout(),
                },
            ) {
                Err(e) => Err(e),
                Ok(layout) => match methods_from(
                    class_file,
                    0,
                    Methods { methods: Seq::empty(), places: Map::empty() },
                ) {
                    Err(e) => Err(e),
                    Ok(methods) => match statics_from(
                        class_file,
                        0,
                        Statics { values: Seq::empty(), slots: Map::empty() },
                    ) {
                        Err(e) => Err(e),
                        Ok(statics) => Ok(
                            ClassView {
                                name,
                                class_file,
                                super_class: match parent {
                                    Some((number, _)) => Some(number),
                                    None => None,
                                },
                                layout,
                                methods,
                                statics,
                            },
                        ),
                    },
                },
            },
        }
    }
}

/// Every ordinal of the layout names one of its fields.
pub open spec fn layout_wf(layout: Layout) -> bool {
    forall|key: MemberKey| #[trigger]
        layout.ordinals.contains_key(key) ==> layout.ordinals[key] < layout.fields.len()
}

/// Every entry of the tables of a class leads to something the class holds.
pub open spec fn class_wf(class: ClassView) -> bool {
    &&& layout_wf(class.layout)
    &&& forall|key: MemberKey| #[trigger]
        class.methods.places.contains_key(key) ==> class.methods.places[key]
            < class.methods.methods.len()
    &&& forall|key: MemberKey| #[trigger]
        class.statics.slots.contains_key(key) ==> class.statics.slots[key]
            < class.statics.values.len()
}

/// What a row of fields holds.
pub open spec fn fields_view(fields: Seq<Field>) -> Seq<FieldView> {
    fields.map_values(|f: Field| f@)
}

/// What a row of methods holds.
pub open spec fn methods_view(methods: Seq<Method>) -> Seq<MethodView> {
    methods.map_values(|m: Method| m@)
}

/// What a row of classes holds.
pub open spec fn classes_view(classes: Seq<Class>) -> Seq<ClassView> {
    classes.map_values(|c: Class| c@)
}

/// A linked class.
pub struct Class {
    name: String,
    class_file: ClassFile,
    super_class: Option<usize>,
    methods: Vec<Method>,
    method_places: MemberTable,
    static_values: Vec<JvmValue>,
    static_slots: MemberTable,
    fields: Vec<Field>,
    field_ordinals: MemberTable,
}

impl View for Class {
    type V = ClassView;

    closed spec fn view(&self) -> ClassView {
        ClassView {
            name: self.name@,
            class_file: self.class_file@,
            super_class: self.super_class,
            layout: Layout {
                fields: fields_view(self.fields@),
                ordinals: table_entries(self.field_ordinals),
            },
            methods: Methods {
                methods: methods_view(self.methods@),
                places: table_entries(self.method_places),
            },
            statics: Statics {
                values: self.static_values@,
                slots: table_entries(self.static_slots),
            },
        }
    }
}

/// The super class handed to the linker, as contracts see it.
pub open spec fn super_view(super_class: Option<(usize, &Class)>) -> Option<(usize, ClassView)> {
    match super_class {
        Some((number, class)) => Some((number, class@)),
        None => None,
    }
}

/// Reads the name, the descriptor text and the type of field `i`.
fn link_field(class_file: &ClassFile, i: usize) -> (r: Result<
    (String, String, FieldDescriptor),
    LinkError,
>)
    requires
        i < class_file.fields.len(),
    ensures
        match r {
            Ok((name, text, descriptor)) => field_to_link(class_file@, i as int) matches Ok(
                (key, field_type),
            ) && key == (name@, text@) && field_type == descriptor@,
            Err(e) => field_to_link(class_file@, i as int) matches Err(err) && err == e@,
        },
{
    let field = &class_file.fields[i];
    assert(class_file@.fields[i as int] == field@);
    let name = match class_file.constant_pool.utf8(field.name_index) {
        Ok(name) => name,
        Err(e) => {
            return Err(LinkError::BadConstantPoolEntry(e));
        },
    };
    let text = match class_file.constant_pool.utf8(field.descriptor_index) {
        Ok(text) => text,
        Err(e) => {
            return Err(LinkError::BadConstantPoolEntry(e));
        },
    };
    match parse_field_descriptor(text.as_str()) {
        Ok(descriptor) => Ok((name.clone(), text.clone(), descriptor)),
        Err(e) => Err(LinkError::InvalidDescriptor(e.descriptor)),
    }
}

/// Extends a layout by the instance fields of the class file.
fn link_layout(class_file: &ClassFile, base_fields: Vec<Field>, base_ordinals: MemberTable) -> (r:
    Result<(Vec<Field>, MemberTable), LinkError>)
    requires
        layout_wf(
            Layout { fields: fields_view(base_fields@), ordinals: table_entries(base_ordinals) },
        ),
    ensures
        match r {
            Ok((fields, ordinals)) => layout_from(
                class_file@,
                0,
                Layout {
                    fields: fields_view(base_fields@),
                    ordinals: table_entries(base_ordinals),
                },
            ) matches Ok(layout) && layout == (Layout {
                fields: fields_view(fields@),
                ordinals: table_entries(ordinals),
            }) && layout_wf(layout),
            Err(e) => layout_from(
                class_file@,
                0,
                Layout {
                    fields: fields_view(base_fields@),
                    ordinals: table_entries(base_ordinals),
                },
            ) matches Err(err) && err == e@,
        },
{
    let ghost whole = layout_from(
        class_file@,
        0,
        Layout { fields: fields_view(base_fields@), ordinals: table_entries(base_ordinals) },
    );
    let ghost base = Layout {
        fields: fields_view(base_fields@),
        ordinals: table_entries(base_ordinals),
    };
    let mut fields = base_fields;
    let mut ordinals = base_ordinals;
    let mut i: usize = 0;
    while i < class_file.fields.len()
        invariant
            i <= class_file.fields.len(),
            class_file@.fields.len() == class_file.fields.len(),
            whole == layout_from(class_file@, 0, base),
            base == (Layout {
                fields: fields_view(base_fields@),
                ordinals: table_entries(base_ordinals),
            }),
            whole == layout_from(
                class_file@,
                i as int,
                Layout { fields: fields_view(fields@), ordinals: table_entries(ordinals) },
            ),
            layout_wf(Layout { fields: fields_view(fields@), ordinals: table_entries(ordinals) }),
        decreases class_file.fields.len() - i,
    {
        let ghost before = Layout {
            fields: fields_view(fields@),
            ordinals: table_entries(ordinals),
        };
        assert(class_file@.fields[i as int] == class_file.fields[i as int]@);
        if !class_file.fields[i].access_flags.contains(FieldAccessFlags::STATIC) {
            match link_field(class_file, i) {
                Err(e) => {
                    return Err(e);
                },
                Ok((name, text, descriptor)) => {
                    let ghost key = (name@, text@);
                    let ordinal = fields.len();
                    let field = Field {
                        name: name.clone(),
                        descriptor,
                        access_flags: class_file.fields[i].access_flags,
                    };
                    let ghost view = field@;
                    fields.push(field);
                    table_insert(&mut ordinals, (name, text), ordinal);
                    proof {
                        assert(fields_view(fields@) =~= before.fields.push(view));
                    }
                },
            }
        }
        i = i + 1;
    }
    Ok((fields, ordinals))
}

/// Lays out the static slots of the class file.
fn link_statics(class_file: &ClassFile) -> (r: Result<(Vec<JvmValue>, MemberTable), LinkError>)
    ensures
        match r {
            Ok((values, slots)) => statics_from(
                class_file@,
                0,
                Statics { values: Seq::empty(), slots: Map::empty() },
            ) matches Ok(statics) && statics == (Statics {
                values: values@,
                slots: table_entries(slots),
            }) && (forall|key: MemberKey| #[trigger]
                statics.slots.contains_key(key) ==> statics.slots[key] < values.len()),
            Err(e) => statics_from(
                class_file@,
                0,
                Statics { values: Seq::empty(), slots: Map::empty() },
            ) matches Err(err) && err == e@,
        },
{
    let ghost whole = statics_from(
        class_file@,
        0,
        Statics { values: Seq::empty(), slots: Map::empty() },
    );
    let mut values: Vec<JvmValue> = Vec::new();
    let mut slots = table_new();
    let mut i: usize = 0;
    while i < class_file.fields.len()
        invariant
            i <= class_file.fields.len(),
            class_file@.fields.len() == class_file.fields.len(),
            whole == statics_from(
                class_file@,
                0,
                Statics { values: Seq::empty(), slots: Map::empty() },
            ),
            whole == statics_from(
                class_file@,
                i as int,
                Statics { values: values@, slots: table_entries(slots) },
            ),
            forall|key: MemberKey| #[trigger]
                table_entries(slots).contains_key(key) ==> table_entries(slots)[key]
                    < values.len(),
        decreases class_file.fields.len() - i,
    {
        assert(class_file@.fields[i as int] == class_file.fields[i as int]@);
        if class_file.fields[i].access_flags.contains(FieldAccessFlags::STATIC) {
            match link_field(class_file, i) {
                Err(e) => {
                    return Err(e);
                },
                Ok((name, text, descriptor)) => {
                    let slot = values.len();
                    values.push(default_value(&descriptor.field_type));
                    table_insert(&mut slots, (name, text), slot);
                },
            }
        }
        i = i + 1;
    }
    Ok((values, slots))
}

/// Links the body of a method: decodes the code of its `Code` attribute, if
/// it has one.
fn link_body(method: &MethodInfo) -> (r: Result<Option<MethodBody>, LinkError>)
    ensures
        match r {
            Ok(Some(body)) => body_to_link(method@.attributes) matches Ok(Some(view)) && view
                == body@,
            Ok(None) => body_to_link(method@.attributes) matches Ok(None),
            Err(e) => body_to_link(method@.attributes) matches Err(err) && err == e@,
        },
{
    match method.code() {
        None => Ok(None),
        Some(code) => match decode_instructions(code.code.as_slice()) {
            Err(e) => Err(LinkError::InvalidCode(e)),
            Ok(instructions) => Ok(
                Some(
                    MethodBody {
                        locals: code.max_locals as usize,
                        stack_size: code.max_stack as usize,
                        code: instructions,
                    },
                ),
            ),
        },
    }
}

/// Reads the name and the descriptor text of method `i` and links it.
fn link_method(class_file: &ClassFile, i: usize) -> (r: Result<(String, String, Method), LinkError>)
    requires
        i < class_file.methods.len(),
    ensures
        match r {
            Ok((name, text, method)) => method_to_link(class_file@, i as int) matches Ok(
                (key, view),
            ) && key == (name@, text@) && view == method@,
            Err(e) => method_to_link(class_file@, i as int) matches Err(err) && err == e@,
        },
{
    let method = &class_file.methods[i];
    assert(class_file@.methods[i as int] == method@);
    let name = match class_file.constant_pool.utf8(method.name_index) {
        Ok(name) => name,
        Err(e) => {
            return Err(LinkError::BadConstantPoolEntry(e));
        },
    };
    let text = match class_file.constant_pool.utf8(method.descriptor_index) {
        Ok(text) => text,
        Err(e) => {
            return Err(LinkError::BadConstantPoolEntry(e));
        },
    };
    let descriptor = match parse_method_descriptor(text.as_str()) {
        Ok(descriptor) => descriptor,
        Err(e) => {
            return Err(LinkError::InvalidDescriptor(e.descriptor));
        },
    };
    let body = link_body(method)?;
    Ok((name.clone(), text.clone(), Method { descriptor, access_flags: method.access_flags, body }))
}

/// Links the methods of the class file.
fn link_methods(class_file: &ClassFile) -> (r: Result<(Vec<Method>, MemberTable), LinkError>)
    ensures
        match r {
            Ok((methods, places)) => methods_from(
                class_file@,
                0,
                Methods { methods: Seq::empty(), places: Map::empty() },
            ) matches Ok(linked_methods) && linked_methods == (Methods {
                methods: methods_view(methods@),
                places: table_entries(places),
            }) && (forall|key: MemberKey| #[trigger]
                linked_methods.places.contains_key(key) ==> linked_methods.places[key]
                    < methods.len()),
            Err(e) => methods_from(
                class_file@,
                0,
                Methods { methods: Seq::empty(), places: Map::empty() },
            ) matches Err(err) && err == e@,
        },
{
    let ghost whole = methods_from(
        class_file@,
        0,
        Methods { methods: Seq::empty(), places: Map::empty() },
    );
    let mut methods: Vec<Method> = Vec::new();
    let mut places = table_new();
    let mut i: usize = 0;
    assert(methods_view(methods@) =~= Seq::<MethodView>::empty());
    while i < class_file.methods.len()
        invariant
            i <= class_file.methods.len(),
            class_file@.methods.len() == class_file.methods.len(),
            whole == methods_from(
                class_file@,
                0,
                Methods { methods: Seq::empty(), places: Map::empty() },
            ),
            whole == methods_from(
                class_file@,
                i as int,
                Methods { methods: methods_view(methods@), places: table_entries(places) },
            ),
            forall|key: MemberKey| #[trigger]
                table_entries(places).contains_key(key) ==> table_entries(places)[key]
                    < methods.len(),
        decreases class_file.methods.len() - i,
    {
        let ghost before = methods_view(methods@);
        match link_method(class_file, i) {
            Err(e) => {
                return Err(e);
            },
            Ok((name, text, method)) => {
                let place = methods.len();
                let ghost view = method@;
                methods.push(method);
                table_insert(&mut places, (name, text), place);
                proof {
                    assert(methods_view(methods@) =~= before.push(view));
                }
            },
        }
        i = i + 1;
    }
    Ok((methods, places))
}

/// Copies the fields of a super class, to start the layout of a subclass.
fn inherit_fields(parent: &Class) -> (r: Vec<Field>)
    ensures
        fields_view(r@) == parent@.layout.fields,
{
    let mut fields: Vec<Field> = Vec::new();
    let mut i: usize = 0;
    while i < parent.fields.len()
        invariant
            i <= parent.fields.len(),
            fields_view(fields@) =~= fields_view(parent.fields@).subrange(0, i as int),
        decreases parent.fields.len() - i,
    {
        let ghost before = fields_view(fields@);
        let field = parent.fields[i].duplicate();
        let ghost view = field@;
        fields.push(field);
        assert(fields_view(fields@) =~= before.push(view));
        i = i + 1;
    }
    assert(fields_view(fields@) =~= fields_view(parent.fields@));
    fields
}

impl Class {
    /// Every entry of the tables of the class leads to something the class
    /// holds.
    pub open spec fn wf(&self) -> bool {
        class_wf(self@)
    }

    /// Links a class file under its super class.
    ///
    /// `super_class` is the class that the class file names as its super
    /// class, with its number in the registry; it is `None` for a class file
    /// that names none. The result is what [`linked`] describes: the
    /// instance fields of the super class keep their places and ordinals,
    /// the class's own follow; every static field has a slot with the
    /// default value of its type; every method is there with its code
    /// decoded.
    pub fn new(class_file: ClassFile, super_class: Option<(usize, &Class)>) -> (r: Result<
        Class,
        LinkError,
    >)
        requires
            super_class matches Some((_, parent)) ==> parent.wf(),
        ensures
            match r {
                Ok(class) => linked(class_file@, super_view(super_class)) matches Ok(view) && view
                    == class@ && class.wf(),
                Err(e) => linked(class_file@, super_view(super_class)) matches Err(err) && err
                    == e@,
            },
    {
        let name = match class_file.constant_pool.class_name(class_file.this_class) {
            Ok(name) => name.clone(),
            Err(e) => {
                return Err(LinkError::BadConstantPoolEntry(e));
            },
        };
        let parent: Option<(usize, &Class)> = if class_file.super_class == 0 {
            None
        } else {
            let super_name = match class_file.constant_pool.class_name(class_file.super_class) {
                Ok(name) => name,
                Err(e) => {
                    return Err(LinkError::BadConstantPoolEntry(e));
                },
            };
            match super_class {
                Some((number, class)) => {
                    if !str_eq(class.name.as_str(), super_name.as_str()) {
                        return Err(LinkError::MissingSuperClass);
                    }
                    Some((number, class))
                },
                None => {
                    return Err(LinkError::MissingSuperClass);
                },
            }
        };
        assert(super_to_link(class_file@, super_view(super_class)) == Ok::<
            Option<(usize, ClassView)>,
            LinkErrorView,
        >(super_view(parent)));
        let (base_fields, base_ordinals) = match parent {
            Some((_, class)) => (inherit_fields(class), table_clone(&class.field_ordinals)),
            None => {
                let fields: Vec<Field> = Vec::new();
                assert(fields_view(fields@) =~= Seq::<FieldView>::empty());
                (fields, table_new())
            },
        };
        let (fields, field_ordinals) = link_layout(&class_file, base_fields, base_ordinals)?;
        let (methods, method_places) = link_methods(&class_file)?;
        let (static_values, static_slots) = link_statics(&class_file)?;
        Ok(
            Class {
                name,
                class_file,
                super_class: match parent {
                    Some((number, _)) => Some(number),
                    None => None,
                },
                methods,
                method_places,
                static_values,
                static_slots,
                fields,
                field_ordinals,
            },
        )
    }
}

impl ClassView {
    /// The method that the class itself declares under `key`.
    pub open spec fn method(self, key: MemberKey) -> Option<MethodView> {
        match table_lookup(self.methods.places, key) {
            Some(place) => Some(self.methods.methods[place as int]),
            None => None,
        }
    }

    /// The ordinal of the instance field `key` in the layout of the class.
    pub open spec fn field_ordinal(self, key: MemberKey) -> Option<usize> {
        table_lookup(self.layout.ordinals, key)
    }

    /// What the static field `key` of the class holds.
    pub open spec fn static_field(self, key: MemberKey) -> Option<JvmValue> {
        match table_lookup(self.statics.slots, key) {
            Some(slot) => Some(self.statics.values[slot as int]),
            None => None,
        }
    }

    /// The class with the static field `key` set to `value`; the class as it
    /// is where it has no such field.
    pub open spec fn with_static_field(self, key: MemberKey, value: JvmValue) -> ClassView {
        match table_lookup(self.statics.slots, key) {
            Some(slot) => ClassView {
                statics: Statics {
                    values: self.statics.values.update(slot as int, value),
                    slots: self.statics.slots,
                },
                ..self
            },
            None => self,
        }
    }
}

impl Class {
    /// The index of the class's own class entry in its constant pool.
    pub fn index(&self) -> (r: u16)
        ensures
            r == self@.class_file.this_class,
    {
        self.class_file.this_class
    }

    /// The internal name of the class.
    pub fn name(&self) -> (r: &str)
        ensures
            r@ == self@.name,
    {
        self.name.as_str()
    }

    /// The number of the super class in the registry; `None` for the class
    /// that has no super class.
    pub fn super_class(&self) -> (r: Option<usize>)
        ensures
            r == self@.super_class,
    {
        self.super_class
    }

    /// The constant pool of the class.
    pub fn constant_pool(&self) -> (r: &ConstantPool)
        ensures
            r@ == self@.class_file.constant_pool,
    {
        &self.class_file.constant_pool
    }

    /// The instance fields of the class, those of its super classes first.
    pub fn fields(&self) -> (r: &[Field])
        ensures
            fields_view(r@) == self@.layout.fields,
    {
        self.fields.as_slice()
    }

    /// The place, among the methods of the class, of the method that the
    /// class itself declares with this name and descriptor.
    pub fn method_place(&self, name: &str, descriptor: &str) -> (r: Option<usize>)
        requires
            self.wf(),
        ensures
            r == table_lookup(self@.methods.places, (name@, descriptor@)),
            r matches Some(place) ==> place < self@.methods.methods.len(),
    {
        table_get(&self.method_places, &(name.to_owned(), descriptor.to_owned()))
    }

    /// The number of methods that the class itself declares.
    pub fn methods_len(&self) -> (r: usize)
        ensures
            r == self@.methods.methods.len(),
    {
        self.methods.len()
    }

    /// The method at `place` among the methods of the class.
    pub fn method_at(&self, place: usize) -> (r: &Method)
        requires
            place < self@.methods.methods.len(),
        ensures
            r@ == self@.methods.methods[place as int],
    {
        &self.methods[place]
    }

    /// The method that the class itself declares with this name and
    /// descriptor. Methods of super classes are not looked at.
    pub fn method(&self, name: &str, descriptor: &str) -> (r: Option<&Method>)
        requires
            self.wf(),
        ensures
            match r {
                Some(method) => self@.method((name@, descriptor@)) == Some(method@),
                None => self@.method((name@, descriptor@)) is None,
            },
    {
        match self.method_place(name, descriptor) {
            Some(place) => Some(&self.methods[place]),
            None => None,
        }
    }

    /// The ordinal of the instance field with this name and descriptor in the
    /// layout of the class.
    pub fn field_ordinal(&self, name: &str, descriptor: &str) -> (r: Option<usize>)
        requires
            self.wf(),
        ensures
            r == self@.field_ordinal((name@, descriptor@)),
            r matches Some(ordinal) ==> ordinal < self@.layout.fields.len(),
    {
        table_get(&self.field_ordinals, &(name.to_owned(), descriptor.to_owned()))
    }

    /// What the static field with this name and descriptor holds. A class
    /// has such a field exactly if its class file declares it.
    pub fn static_field(&self, name: &str, descriptor: &str) -> (r: Option<JvmValue>)
        requires
            self.wf(),
        ensures
            r == self@.static_field((name@, descriptor@)),
    {
        match table_get(&self.static_slots, &(name.to_owned(), descriptor.to_owned())) {
            Some(slot) => Some(self.static_values[slot]),
            None => None,
        }
    }

    /// Writes the static field with this name and descriptor. Returns false,
    /// and changes nothing, where the class has no such field.
    pub fn set_static_field(&mut self, name: &str, descriptor: &str, value: JvmValue) -> (r: bool)
        requires
            old(self).wf(),
        ensures
            final(self).wf(),
            r == old(self)@.statics.slots.contains_key((name@, descriptor@)),
            final(self)@ == old(self)@.with_static_field((name@, descriptor@), value),
    {
        match table_get(&self.static_slots, &(name.to_owned(), descriptor.to_owned())) {
            Some(slot) => {
                self.static_values.set(slot, value);
                true
            },
            None => false,
        }
    }
}

/// Whether field `j` of the class file is an instance field with the name
/// and descriptor of `key`.
pub open spec fn declares_at(class_file: ClassFileView, j: int, key: MemberKey) -> bool {
    &&& !class_file.fields[j].access_flags.has(FieldAccessFlags::STATIC)
    &&& field_to_link(class_file, j) is Ok
    &&& field_to_link(class_file, j)->Ok_0.0 == key
}

/// Whether the class file declares an instance field under `key` at field
/// `i` or later.
pub open spec fn declares_instance_field(class_file: ClassFileView, i: int, key: MemberKey) -> bool {
    exists|j: int| i <= j < class_file.fields.len() && #[trigger] declares_at(class_file, j, key)
}

/// Extending a layout keeps what it holds: the fields that were there stay
/// where they are, and a key that the class file does not declare anew keeps
/// its ordinal.
pub proof fn lemma_layout_extends(class_file: ClassFileView, i: int, base: Layout)
    requires
        0 <= i,
        layout_from(class_file, i, base) is Ok,
    ensures
        ({
            let layout = layout_from(class_file, i, base)->Ok_0;
            &&& base.fields.len() <= layout.fields.len()
            &&& forall|k: int| 0 <= k < base.fields.len() ==> layout.fields[k] == base.fields[k]
            &&& forall|key: MemberKey|
                base.ordinals.contains_key(key) && !declares_instance_field(class_file, i, key)
                    ==> layout.ordinals.contains_key(key) && layout.ordinals[key]
                    == base.ordinals[key]
        }),
    decreases class_file.fields.len() - i,
{
    if i < class_file.fields.len() {
        if class_file.fields[i].access_flags.has(FieldAccessFlags::STATIC) {
            lemma_layout_extends(class_file, i + 1, base);
            assert forall|key: MemberKey|
                !declares_instance_field(class_file, i, key) implies !declares_instance_field(
                class_file,
                i + 1,
                key,
            ) by {
                if declares_instance_field(class_file, i + 1, key) {
                    let j = choose|j: int|
                        i + 1 <= j < class_file.fields.len() && #[trigger] declares_at(
                            class_file,
                            j,
                            key,
                        );
                    assert(i <= j && declares_at(class_file, j, key));
                }
            }
        } else {
            let (declared, field_type) = field_to_link(class_file, i)->Ok_0;
            let next = Layout {
                fields: base.fields.push(
                    FieldView {
                        name: declared.0,
                        descriptor: field_type,
                        access_flags: class_file.fields[i].access_flags,
                    },
                ),
                ordinals: base.ordinals.insert(declared, base.fields.len() as usize),
            };
            lemma_layout_extends(class_file, i + 1, next);
            assert forall|key: MemberKey|
                base.ordinals.contains_key(key) && !declares_instance_field(
                    class_file,
                    i,
                    key,
                ) implies next.ordinals.contains_key(key) && next.ordinals[key]
                == base.ordinals[key] && !declares_instance_field(class_file, i + 1, key) by {
                assert(declares_at(class_file, i, declared));
                if declares_instance_field(class_file, i + 1, key) {
                    let j = choose|j: int|
                        i + 1 <= j < class_file.fields.len() && #[trigger] declares_at(
                            class_file,
                            j,
                            key,
                        );
                    assert(i <= j && declares_at(class_file, j, key));
                }
            }
        }
    }
}

/// The ordinal of an inherited instance field is the same in the subclass as
/// in the super class, and the field found under it is the same field: for
/// every field of the super class that the subclass does not declare again
/// under the same name and descriptor.
pub proof fn lemma_inherited_ordinal_stable(
    class_file: ClassFileView,
    number: usize,
    parent: ClassView,
    key: MemberKey,
)
    requires
        class_wf(parent),
        class_file.super_class != 0,
        linked(class_file, Some((number, parent))) is Ok,
        parent.field_ordinal(key) is Some,
        !declares_instance_field(class_file, 0, key),
    ensures
        ({
            let class = linked(class_file, Some((number, parent)))->Ok_0;
            &&& class.super_class == Some(number)
            &&& class.field_ordinal(key) == parent.field_ordinal(key)
            &&& class.layout.fields[parent.field_ordinal(key).unwrap() as int]
                == parent.layout.fields[parent.field_ordinal(key).unwrap() as int]
        }),
{
    lemma_layout_extends(class_file, 0, parent.layout);
}

} // verus!
