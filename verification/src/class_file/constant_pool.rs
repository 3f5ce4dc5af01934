//! The constant pool of a class file.
//!
//! The pool is a table of tagged entries that the rest of the class file, and
//! the code of its methods, refer to by index. Indices start at one. A long
//! or a double takes two indices, of which the second holds nothing.

use vstd::prelude::*;

verus! {

/// The entries of a constant pool; the entry with index `i` stands at place
/// `i - 1`.
#[derive(Debug)]
pub struct ConstantPool(pub Vec<ConstantInfo>);

#[derive(Debug)]
pub enum ConstantInfo {
    /// The second index of a long or a double.
    Unused,
    Utf8(std::string::String),
    Integer(i32),
    /// A float, by its bits.
    Float(u32),
    Long(i64),
    /// A double, by its bits.
    Double(u64),
    Class(Class),
    String(String),
    FieldRef(FieldRef),
    MethodRef(MethodRef),
    InterfaceMethodRef(MethodRef),
    NameAndType(NameAndType),
    MethodHandle(MethodHandle),
    MethodType(MethodType),
    Dynamic(Dynamic),
    InvokeDynamic(InvokeDynamic),
    Module(Module),
    Package(Package),
}

#[derive(Clone, Copy, Debug, PartialEq, Eq, Structural)]
pub struct Class {
    pub name_index: u16,
}

#[derive(Clone, Copy, Debug, PartialEq, Eq, Structural)]
pub struct String {
    pub string_index: u16,
}

#[derive(Clone, Copy, Debug, PartialEq, Eq, Structural)]
pub struct FieldRef {
    pub class_index: u16,
    pub name_and_type_index: u16,
}

#[derive(Clone, Copy, Debug, PartialEq, Eq, Structural)]
pub struct MethodRef {
    pub class_index: u16,
    pub name_and_type_index: u16,
}

#[derive(Clone, Copy, Debug, PartialEq, Eq, Structural)]
pub struct NameAndType {
    pub name_index: u16,
    pub descriptor_index: u16,
}

#[derive(Clone, Copy, Debug, PartialEq, Eq, Structural)]
pub struct MethodHandle {
    pub reference_kind: u8,
    pub reference_index: u16,
}

#[derive(Clone, Copy, Debug, PartialEq, Eq, Structural)]
pub struct MethodType {
    pub descriptor_index: u16,
}

#[derive(Clone, Copy, Debug, PartialEq, Eq, Structural)]
pub struct Dynamic {
    pub bootstrap_method_attr_index: u16,
    pub name_and_type_index: u16,
}

#[derive(Clone, Copy, Debug, PartialEq, Eq, Structural)]
pub struct InvokeDynamic {
    pub bootstrap_method_attr_index: u16,
    pub name_and_type_index: u16,
}

#[derive(Clone, Copy, Debug, PartialEq, Eq, Structural)]
pub struct Module {
    pub name_index: u16,
}

#[derive(Clone, Copy, Debug, PartialEq, Eq, Structural)]
pub struct Package {
    pub name_index: u16,
}

/// [`ConstantInfo`] as contracts see it.
pub enum ConstantInfoView {
    Unused,
    Utf8(Seq<char>),
    Integer(i32),
    Float(u32),
    Long(i64),
    Double(u64),
    Class(Class),
    String(String),
    FieldRef(FieldRef),
    MethodRef(MethodRef),
    InterfaceMethodRef(MethodRef),
    NameAndType(NameAndType),
    MethodHandle(MethodHandle),
    MethodType(MethodType),
    Dynamic(Dynamic),
    InvokeDynamic(InvokeDynamic),
    Module(Module),
    Package(Package),
}

impl View for ConstantInfo {
    type V = ConstantInfoView;

    open spec fn view(&self) -> ConstantInfoView {
        match self {
            ConstantInfo::Unused => ConstantInfoView::Unused,
            ConstantInfo::Utf8(text) => ConstantInfoView::Utf8(text@),
            ConstantInfo::Integer(v) => ConstantInfoView::Integer(*v),
            ConstantInfo::Float(v) => ConstantInfoView::Float(*v),
            ConstantInfo::Long(v) => ConstantInfoView::Long(*v),
            ConstantInfo::Double(v) => ConstantInfoView::Double(*v),
            ConstantInfo::Class(v) => ConstantInfoView::Class(*v),
            ConstantInfo::String(v) => ConstantInfoView::String(*v),
            ConstantInfo::FieldRef(v) => ConstantInfoView::FieldRef(*v),
            ConstantInfo::MethodRef(v) => ConstantInfoView::MethodRef(*v),
            ConstantInfo::InterfaceMethodRef(v) => ConstantInfoView::InterfaceMethodRef(*v),
            ConstantInfo::NameAndType(v) => ConstantInfoView::NameAndType(*v),
            ConstantInfo::MethodHandle(v) => ConstantInfoView::MethodHandle(*v),
            ConstantInfo::MethodType(v) => ConstantInfoView::MethodType(*v),
            ConstantInfo::Dynamic(v) => ConstantInfoView::Dynamic(*v),
            ConstantInfo::InvokeDynamic(v) => ConstantInfoView::InvokeDynamic(*v),
            ConstantInfo::Module(v) => ConstantInfoView::Module(*v),
            ConstantInfo::Package(v) => ConstantInfoView::Package(*v),
        }
    }
}

impl View for ConstantPool {
    type V = Seq<ConstantInfoView>;

    open spec fn view(&self) -> Seq<ConstantInfoView> {
        self.0@.map_values(|entry: ConstantInfo| entry@)
    }
}

/// The kind of entry that a reference into the pool expects to find.
#[derive(Clone, Copy, Debug, PartialEq, Eq, Structural)]
pub enum ConstantKind {
    Utf8,
    Class,
    String,
    FieldRef,
    MethodRef,
    NameAndType,
}

/// A reference into the pool that does not lead to an entry of the expected
/// kind: the index is zero, lies past the end of the pool, or names an entry
/// of another kind (the unused index after a long or a double among them).
#[derive(Clone, Copy, Debug, PartialEq, Eq, Structural)]
pub struct BadConstantPoolEntry {
    pub index: u16,
    pub expected: ConstantKind,
}

/// The entry with index `index`: none for index zero and for an index past
/// the end.
pub open spec fn pool_entry(pool: Seq<ConstantInfoView>, index: u16) -> Option<ConstantInfoView> {
    if 1 <= index <= pool.len() {
        Some(pool[index - 1])
    } else {
        None
    }
}

/// The text of the utf-8 entry with index `index`.
pub open spec fn pool_utf8(pool: Seq<ConstantInfoView>, index: u16) -> Result<
    Seq<char>,
    BadConstantPoolEntry,
> {
    match pool_entry(pool, index) {
        Some(ConstantInfoView::Utf8(text)) => Ok(text),
        _ => Err(BadConstantPoolEntry { index, expected: ConstantKind::Utf8 }),
    }
}

/// The name of the class that the class entry with index `index` refers to.
pub open spec fn pool_class_name(pool: Seq<ConstantInfoView>, index: u16) -> Result<
    Seq<char>,
    BadConstantPoolEntry,
> {
    match pool_entry(pool, index) {
        Some(ConstantInfoView::Class(class)) => pool_utf8(pool, class.name_index),
        _ => Err(BadConstantPoolEntry { index, expected: ConstantKind::Class }),
    }
}

/// The text of the string constant with index `index`.
pub open spec fn pool_string(pool: Seq<ConstantInfoView>, index: u16) -> Result<
    Seq<char>,
    BadConstantPoolEntry,
> {
    match pool_entry(pool, index) {
        Some(ConstantInfoView::String(string)) => pool_utf8(pool, string.string_index),
        _ => Err(BadConstantPoolEntry { index, expected: ConstantKind::String }),
    }
}

/// The name and the descriptor that the name-and-type entry with index
/// `index` refers to.
pub open spec fn pool_name_and_type(pool: Seq<ConstantInfoView>, index: u16) -> Result<
    (Seq<char>, Seq<char>),
    BadConstantPoolEntry,
> {
    match pool_entry(pool, index) {
        Some(ConstantInfoView::NameAndType(entry)) => match pool_utf8(pool, entry.name_index) {
            Err(e) => Err(e),
            Ok(name) => match pool_utf8(pool, entry.descriptor_index) {
                Err(e) => Err(e),
                Ok(descriptor) => Ok((name, descriptor)),
            },
        },
        _ => Err(BadConstantPoolEntry { index, expected: ConstantKind::NameAndType }),
    }
}

/// A member of some class as a field or method reference names it.
pub struct MemberRefView {
    /// Index of the class entry of the class that owns the member.
    pub class_index: u16,
    pub name: Seq<char>,
    pub descriptor: Seq<char>,
}

/// The field that the field reference with index `index` names.
pub open spec fn pool_field_ref(pool: Seq<ConstantInfoView>, index: u16) -> Result<
    MemberRefView,
    BadConstantPoolEntry,
> {
    match pool_entry(pool, index) {
        Some(ConstantInfoView::FieldRef(entry)) => match pool_name_and_type(
            pool,
            entry.name_and_type_index,
        ) {
            Err(e) => Err(e),
            Ok((name, descriptor)) => Ok(
                MemberRefView { class_index: entry.class_index, name, descriptor },
            ),
        },
        _ => Err(BadConstantPoolEntry { index, expected: ConstantKind::FieldRef }),
    }
}

/// The method that the method reference with index `index` names.
pub open spec fn pool_method_ref(pool: Seq<ConstantInfoView>, index: u16) -> Result<
    MemberRefView,
    BadConstantPoolEntry,
> {
    match pool_entry(pool, index) {
        Some(ConstantInfoView::MethodRef(entry)) => match pool_name_and_type(
            pool,
            entry.name_and_type_index,
        ) {
            Err(e) => Err(e),
            Ok((name, descriptor)) => Ok(
                MemberRefView { class_index: entry.class_index, name, descriptor },
            ),
        },
        _ => Err(BadConstantPoolEntry { index, expected: ConstantKind::MethodRef }),
    }
}

/// Index zero leads to no entry, whatever kind of entry is asked for.
pub proof fn lemma_index_zero_names_nothing(pool: Seq<ConstantInfoView>)
    ensures
        pool_entry(pool, 0) is None,
        pool_utf8(pool, 0) is Err,
        pool_class_name(pool, 0) is Err,
        pool_string(pool, 0) is Err,
        pool_name_and_type(pool, 0) is Err,
        pool_field_ref(pool, 0) is Err,
        pool_method_ref(pool, 0) is Err,
{
}

/// The unused entry after a long or a double is never read as a value:
/// whatever kind of entry is asked for at its index, the answer is an error.
pub proof fn lemma_unused_is_no_value(pool: Seq<ConstantInfoView>, index: u16)
    requires
        pool_entry(pool, index) == Some(ConstantInfoView::Unused),
    ensures
        pool_utf8(pool, index) is Err,
        pool_class_name(pool, index) is Err,
        pool_string(pool, index) is Err,
        pool_name_and_type(pool, index) is Err,
        pool_field_ref(pool, index) is Err,
        pool_method_ref(pool, index) is Err,
{
}

/// A member of some class as a field or method reference names it.
#[derive(Debug)]
pub struct MemberRef<'a> {
    /// Index of the class entry of the class that owns the member.
    pub class_index: u16,
    pub name: &'a std::string::String,
    pub descriptor: &'a std::string::String,
}

impl<'a> View for MemberRef<'a> {
    type V = MemberRefView;

    open spec fn view(&self) -> MemberRefView {
        MemberRefView {
            class_index: self.class_index,
            name: self.name@,
            descriptor: self.descriptor@,
        }
    }
}

impl ConstantInfo {
    /// The text of a utf-8 entry.
    pub fn try_as_utf_8_ref(&self) -> (r: Option<&std::string::String>)
        ensures
            match r {
                Some(text) => self@ == ConstantInfoView::Utf8(text@),
                None => !(self@ is Utf8),
            },
    {
        match self {
            ConstantInfo::Utf8(text) => Some(text),
            _ => None,
        }
    }

    /// The payload of a class entry.
    pub fn try_as_class_ref(&self) -> (r: Option<&Class>)
        ensures
            match r {
                Some(entry) => self@ == ConstantInfoView::Class(*entry),
                None => !(self@ is Class),
            },
    {
        match self {
            ConstantInfo::Class(entry) => Some(entry),
            _ => None,
        }
    }

    /// The payload of a string entry.
    pub fn try_as_string_ref(&self) -> (r: Option<&String>)
        ensures
            match r {
                Some(entry) => self@ == ConstantInfoView::String(*entry),
                None => !(self@ is String),
            },
    {
        match self {
            ConstantInfo::String(entry) => Some(entry),
            _ => None,
        }
    }

    /// The payload of a field reference.
    pub fn try_as_field_ref_ref(&self) -> (r: Option<&FieldRef>)
        ensures
            match r {
                Some(entry) => self@ == ConstantInfoView::FieldRef(*entry),
                None => !(self@ is FieldRef),
            },
    {
        match self {
            ConstantInfo::FieldRef(entry) => Some(entry),
            _ => None,
        }
    }

    /// The payload of a method reference.
    pub fn try_as_method_ref_ref(&self) -> (r: Option<&MethodRef>)
        ensures
            match r {
                Some(entry) => self@ == ConstantInfoView::MethodRef(*entry),
                None => !(self@ is MethodRef),
            },
    {
        match self {
            ConstantInfo::MethodRef(entry) => Some(entry),
            _ => None,
        }
    }

    /// The payload of a name-and-type entry.
    pub fn try_as_name_and_type_ref(&self) -> (r: Option<&NameAndType>)
        ensures
            match r {
                Some(entry) => self@ == ConstantInfoView::NameAndType(*entry),
                None => !(self@ is NameAndType),
            },
    {
        match self {
            ConstantInfo::NameAndType(entry) => Some(entry),
            _ => None,
        }
    }
}

impl ConstantPool {
    /// The entry with index `index`. Index zero names no entry, nor does an
    /// index past the end of the pool.
    pub fn get(&self, index: u16) -> (r: Option<&ConstantInfo>)
        ensures
            index == 0 ==> r is None,
            match r {
                Some(entry) => pool_entry(self@, index) == Some(entry@) && *entry
                    == self.0@[index - 1],
                None => pool_entry(self@, index) is None,
            },
    {
        if index == 0 {
            return None;
        }
        let place: usize = (index - 1) as usize;
        if place < self.0.len() {
            Some(&self.0[place])
        } else {
            None
        }
    }

    /// The text of the utf-8 entry with index `index`.
    pub fn utf8(&self, index: u16) -> (r: Result<&std::string::String, BadConstantPoolEntry>)
        ensures
            match r {
                Ok(text) => pool_utf8(self@, index) == Ok::<Seq<char>, BadConstantPoolEntry>(
                    text@,
                ),
                Err(e) => pool_utf8(self@, index) == Err::<Seq<char>, BadConstantPoolEntry>(e),
            },
    {
        match self.get(index) {
            Some(ConstantInfo::Utf8(text)) => Ok(text),
            _ => Err(BadConstantPoolEntry { index, expected: ConstantKind::Utf8 }),
        }
    }

    /// The name of the class that the class entry with index `index` refers
    /// to.
    pub fn class_name(&self, index: u16) -> (r: Result<
        &std::string::String,
        BadConstantPoolEntry,
    >)
        ensures
            match r {
                Ok(text) => pool_class_name(self@, index) == Ok::<Seq<char>, BadConstantPoolEntry>(
                    text@,
                ),
                Err(e) => pool_class_name(self@, index) == Err::<Seq<char>, BadConstantPoolEntry>(
                    e,
                ),
            },
    {
        match self.get(index) {
            Some(ConstantInfo::Class(class)) => self.utf8(class.name_index),
            _ => Err(BadConstantPoolEntry { index, expected: ConstantKind::Class }),
        }
    }

    /// The text of the string constant with index `index`.
    pub fn string(&self, index: u16) -> (r: Result<&std::string::String, BadConstantPoolEntry>)
        ensures
            match r {
                Ok(text) => pool_string(self@, index) == Ok::<Seq<char>, BadConstantPoolEntry>(
                    text@,
                ),
                Err(e) => pool_string(self@, index) == Err::<Seq<char>, BadConstantPoolEntry>(e),
            },
    {
        match self.get(index) {
            Some(ConstantInfo::String(string)) => self.utf8(string.string_index),
            _ => Err(BadConstantPoolEntry { index, expected: ConstantKind::String }),
        }
    }

    /// The name and the descriptor that the name-and-type entry with index
    /// `index` refers to.
    pub fn name_and_type(&self, index: u16) -> (r: Result<
        (&std::string::String, &std::string::String),
        BadConstantPoolEntry,
    >)
        ensures
            match r {
                Ok((name, descriptor)) => pool_name_and_type(self@, index) == Ok::<
                    (Seq<char>, Seq<char>),
                    BadConstantPoolEntry,
                >((name@, descriptor@)),
                Err(e) => pool_name_and_type(self@, index) == Err::<
                    (Seq<char>, Seq<char>),
                    BadConstantPoolEntry,
                >(e),
            },
    {
        match self.get(index) {
            Some(ConstantInfo::NameAndType(entry)) => {
                let name = self.utf8(entry.name_index)?;
                let descriptor = self.utf8(entry.descriptor_index)?;
                Ok((name, descriptor))
            },
            _ => Err(BadConstantPoolEntry { index, expected: ConstantKind::NameAndType }),
        }
    }

    /// The field that the field reference with index `index` names.
    pub fn field_ref(&self, index: u16) -> (r: Result<MemberRef<'_>, BadConstantPoolEntry>)
        ensures
            match r {
                Ok(member) => pool_field_ref(self@, index) == Ok::<
                    MemberRefView,
                    BadConstantPoolEntry,
                >(member@),
                Err(e) => pool_field_ref(self@, index) == Err::<
                    MemberRefView,
                    BadConstantPoolEntry,
                >(e),
            },
    {
        match self.get(index) {
            Some(ConstantInfo::FieldRef(entry)) => {
                let (name, descriptor) = self.name_and_type(entry.name_and_type_index)?;
                Ok(MemberRef { class_index: entry.class_index, name, descriptor })
            },
            _ => Err(BadConstantPoolEntry { index, expected: ConstantKind::FieldRef }),
        }
    }

    /// The method that the method reference with index `index` names.
    pub fn method_ref(&self, index: u16) -> (r: Result<MemberRef<'_>, BadConstantPoolEntry>)
        ensures
            match r {
                Ok(member) => pool_method_ref(self@, index) == Ok::<
                    MemberRefView,
                    BadConstantPoolEntry,
                >(member@),
                Err(e) => pool_method_ref(self@, index) == Err::<
                    MemberRefView,
                    BadConstantPoolEntry,
                >(e),
            },
    {
        match self.get(index) {
            Some(ConstantInfo::MethodRef(entry)) => {
                let (name, descriptor) = self.name_and_type(entry.name_and_type_index)?;
                Ok(MemberRef { class_index: entry.class_index, name, descriptor })
            },
            _ => Err(BadConstantPoolEntry { index, expected: ConstantKind::MethodRef }),
        }
    }
}

} // verus!
