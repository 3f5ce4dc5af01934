//! Field and method descriptors.
//!
//! A descriptor is a compact string that names a type. A field descriptor is
//! one field type: a letter for a primitive type, `L<name>;` for a class, or
//! one to 255 `[` followed by either of these for an array. A method
//! descriptor is `(`, the field types of the parameters, `)`, and then either
//! `V` or the field type of the result.

use vstd::prelude::*;
use vstd::string::StrSliceExecFns;

verus! {

/// A type that is no array.
#[derive(Debug)]
pub enum BaseType {
    Byte,
    Char,
    Double,
    Float,
    Int,
    Long,
    Short,
    Boolean,
    /// A class, by its internal name.
    Object(String),
}

/// The type of a field, a parameter or a result.
#[derive(Debug)]
pub enum FieldType {
    Base(BaseType),
    /// An array, by the number of its dimensions and its element type.
    Array(u8, BaseType),
}

#[derive(Debug)]
pub struct FieldDescriptor {
    pub field_type: FieldType,
}

#[derive(Debug)]
pub struct MethodDescriptor {
    pub params: Vec<FieldType>,
    /// `None` for a method that returns nothing.
    pub return_type: Option<FieldType>,
}

/// A string that is no descriptor.
#[derive(Debug)]
pub struct InvalidDescriptor {
    pub descriptor: String,
}

/// [`BaseType`] as contracts see it.
pub enum BaseTypeView {
    Byte,
    Char,
    Double,
    Float,
    Int,
    Long,
    Short,
    Boolean,
    Object(Seq<char>),
}

/// [`FieldType`] as contracts see it.
pub enum FieldTypeView {
    Base(BaseTypeView),
    Array(u8, BaseTypeView),
}

/// [`MethodDescriptor`] as contracts see it.
pub struct MethodDescriptorView {
    pub params: Seq<FieldTypeView>,
    pub return_type: Option<FieldTypeView>,
}

impl View for BaseType {
    type V = BaseTypeView;

    open spec fn view(&self) -> BaseTypeView {
        match self {
            BaseType::Byte => BaseTypeView::Byte,
            BaseType::Char => BaseTypeView::Char,
            BaseType::Double => BaseTypeView::Double,
            BaseType::Float => BaseTypeView::Float,
            BaseType::Int => BaseTypeView::Int,
            BaseType::Long => BaseTypeView::Long,
            BaseType::Short => BaseTypeView::Short,
            BaseType::Boolean => BaseTypeView::Boolean,
            BaseType::Object(name) => BaseTypeView::Object(name@),
        }
    }
}

impl View for FieldType {
    type V = FieldTypeView;

    open spec fn view(&self) -> FieldTypeView {
        match self {
            FieldType::Base(base) => FieldTypeView::Base(base@),
            FieldType::Array(dimensions, base) => FieldTypeView::Array(*dimensions, base@),
        }
    }
}

impl View for FieldDescriptor {
    type V = FieldTypeView;

    open spec fn view(&self) -> FieldTypeView {
        self.field_type@
    }
}

impl View for MethodDescriptor {
    type V = MethodDescriptorView;

    open spec fn view(&self) -> MethodDescriptorView {
        MethodDescriptorView {
            params: self.params@.map_values(|t: FieldType| t@),
            return_type: match self.return_type {
                Some(t) => Some(t@),
                None => None,
            },
        }
    }
}

impl BaseType {
    /// A copy of this type.
    pub fn duplicate(&self) -> (r: BaseType)
        ensures
            r@ == self@,
    {
        match self {
            BaseType::Byte => BaseType::Byte,
            BaseType::Char => BaseType::Char,
            BaseType::Double => BaseType::Double,
            BaseType::Float => BaseType::Float,
            BaseType::Int => BaseType::Int,
            BaseType::Long => BaseType::Long,
            BaseType::Short => BaseType::Short,
            BaseType::Boolean => BaseType::Boolean,
            BaseType::Object(name) => BaseType::Object(name.clone()),
        }
    }
}

impl FieldType {
    /// A copy of this type.
    pub fn duplicate(&self) -> (r: FieldType)
        ensures
            r@ == self@,
    {
        match self {
            FieldType::Base(base) => FieldType::Base(base.duplicate()),
            FieldType::Array(dimensions, base) => FieldType::Array(*dimensions, base.duplicate()),
        }
    }
}

impl FieldDescriptor {
    /// A copy of this descriptor.
    pub fn duplicate(&self) -> (r: FieldDescriptor)
        ensures
            r@ == self@,
    {
        FieldDescriptor { field_type: self.field_type.duplicate() }
    }
}

/// The place of the first `;` at or after `from`, or the length of `s` where
/// there is none.
pub open spec fn semicolon_from(s: Seq<char>, from: int) -> int
    decreases s.len() - from,
{
    if from < 0 || from >= s.len() {
        s.len() as int
    } else if s[from] == ';' {
        from
    } else {
        semicolon_from(s, from + 1)
    }
}

/// The number of `[` that stand in a row from `from` on.
pub open spec fn brackets_from(s: Seq<char>, from: int) -> int
    decreases s.len() - from,
{
    if from < 0 || from >= s.len() || s[from] != '[' {
        0
    } else {
        1 + brackets_from(s, from + 1)
    }
}

/// The base type that is written at `at`, and where it ends.
pub open spec fn base_type_at(s: Seq<char>, at: int) -> Option<(BaseTypeView, int)> {
    if at < 0 || at >= s.len() {
        None
    } else if s[at] == 'B' {
        Some((BaseTypeView::Byte, at + 1))
    } else if s[at] == 'C' {
        Some((BaseTypeView::Char, at + 1))
    } else if s[at] == 'D' {
        Some((BaseTypeView::Double, at + 1))
    } else if s[at] == 'F' {
        Some((BaseTypeView::Float, at + 1))
    } else if s[at] == 'I' {
        Some((BaseTypeView::Int, at + 1))
    } else if s[at] == 'J' {
        Some((BaseTypeView::Long, at + 1))
    } else if s[at] == 'S' {
        Some((BaseTypeView::Short, at + 1))
    } else if s[at] == 'Z' {
        Some((BaseTypeView::Boolean, at + 1))
    } else if s[at] == 'L' {
        let end = semicolon_from(s, at + 1);
        if end < s.len() {
            Some((BaseTypeView::Object(s.subrange(at + 1, end)), end + 1))
        } else {
            None
        }
    } else {
        None
    }
}

/// The field type that is written at `at`, and where it ends.
pub open spec fn field_type_at(s: Seq<char>, at: int) -> Option<(FieldTypeView, int)> {
    let dimensions = brackets_from(s, at);
    if dimensions == 0 {
        match base_type_at(s, at) {
            Some((base, end)) => Some((FieldTypeView::Base(base), end)),
            None => None,
        }
    } else if dimensions > 255 {
        None
    } else {
        match base_type_at(s, at + dimensions) {
            Some((base, end)) => Some((FieldTypeView::Array(dimensions as u8, base), end)),
            None => None,
        }
    }
}

/// The field types that are written in a row from `at` on, and where the
/// last of them ends.
pub open spec fn field_types_from(s: Seq<char>, at: int) -> (Seq<FieldTypeView>, int)
    decreases s.len() - at,
{
    match field_type_at(s, at) {
        Some((first, next)) => if at < next <= s.len() {
            let (rest, end) = field_types_from(s, next);
            (seq![first] + rest, end)
        } else {
            (Seq::empty(), at)
        },
        None => (Seq::empty(), at),
    }
}

/// The field type that `s` as a whole is the descriptor of.
pub open spec fn field_descriptor_of(s: Seq<char>) -> Option<FieldTypeView> {
    match field_type_at(s, 0) {
        Some((field_type, end)) => if end == s.len() {
            Some(field_type)
        } else {
            None
        },
        None => None,
    }
}

/// The parameter and result types that `s` as a whole is the descriptor of.
pub open spec fn method_descriptor_of(s: Seq<char>) -> Option<MethodDescriptorView> {
    if s.len() == 0 || s[0] != '(' {
        None
    } else {
        let (params, close) = field_types_from(s, 1);
        if close >= s.len() || s[close] != ')' {
            None
        } else if close + 1 < s.len() && s[close + 1] == 'V' {
            if close + 2 == s.len() {
                Some(MethodDescriptorView { params, return_type: None })
            } else {
                None
            }
        } else {
            match field_type_at(s, close + 1) {
                Some((result, end)) => if end == s.len() {
                    Some(MethodDescriptorView { params, return_type: Some(result) })
                } else {
                    None
                },
                None => None,
            }
        }
    }
}

/// A base type ends after the place it starts at, and within the string.
pub proof fn lemma_base_type_extent(s: Seq<char>, at: int)
    ensures
        base_type_at(s, at) matches Some((_, end)) ==> at < end <= s.len(),
{
    if 0 <= at < s.len() && s[at] == 'L' {
        lemma_semicolon_extent(s, at + 1);
    }
}

/// The first `;` from `from` on is not before `from`, and no `;` stands
/// between the two.
pub proof fn lemma_semicolon_extent(s: Seq<char>, from: int)
    requires
        0 <= from,
    ensures
        from <= semicolon_from(s, from) || semicolon_from(s, from) == s.len(),
        semicolon_from(s, from) <= s.len(),
        semicolon_from(s, from) < s.len() ==> s[semicolon_from(s, from)] == ';',
        forall|k: int| from <= k < semicolon_from(s, from) ==> s[k] != ';',
    decreases s.len() - from,
{
    if from < s.len() && s[from] != ';' {
        lemma_semicolon_extent(s, from + 1);
    }
}

/// The characters of a string, one by one.
fn chars_of(s: &str) -> (chars: Vec<char>)
    ensures
        chars@ == s@,
{
    let n = s.unicode_len();
    let mut chars: Vec<char> = Vec::new();
    let mut i: usize = 0;
    while i < n
        invariant
            i <= n,
            n == s@.len(),
            chars@ == s@.subrange(0, i as int),
        decreases n - i,
    {
        chars.push(s.get_char(i));
        assert(chars@ =~= s@.subrange(0, i + 1));
        i = i + 1;
    }
    assert(chars@ =~= s@);
    chars
}

/// Reads the base type that is written at `at`.
fn parse_base_type(s: &str, chars: &Vec<char>, at: usize) -> (r: Option<(BaseType, usize)>)
    requires
        chars@ == s@,
    ensures
        match r {
            Some((base, end)) => base_type_at(s@, at as int) == Some((base@, end as int)),
            None => base_type_at(s@, at as int) is None,
        },
{
    if at >= chars.len() {
        return None;
    }
    let c = chars[at];
    if c == 'B' {
        Some((BaseType::Byte, at + 1))
    } else if c == 'C' {
        Some((BaseType::Char, at + 1))
    } else if c == 'D' {
        Some((BaseType::Double, at + 1))
    } else if c == 'F' {
        Some((BaseType::Float, at + 1))
    } else if c == 'I' {
        Some((BaseType::Int, at + 1))
    } else if c == 'J' {
        Some((BaseType::Long, at + 1))
    } else if c == 'S' {
        Some((BaseType::Short, at + 1))
    } else if c == 'Z' {
        Some((BaseType::Boolean, at + 1))
    } else if c == 'L' {
        let mut end: usize = at + 1;
        while end < chars.len() && chars[end] != ';'
            invariant
                at < end <= chars.len(),
                chars@ == s@,
                semicolon_from(s@, at + 1) == semicolon_from(s@, end as int),
            decreases chars.len() - end,
        {
            end = end + 1;
        }
        if end < chars.len() {
            let name = s.substring_char(at + 1, end).to_owned();
            Some((BaseType::Object(name), end + 1))
        } else {
            None
        }
    } else {
        None
    }
}

/// Reads the field type that is written at `at`.
fn parse_field_type(s: &str, chars: &Vec<char>, at: usize) -> (r: Option<(FieldType, usize)>)
    requires
        chars@ == s@,
    ensures
        match r {
            Some((field_type, end)) => field_type_at(s@, at as int) == Some(
                (field_type@, end as int),
            ) && at < end <= s@.len(),
            None => field_type_at(s@, at as int) is None,
        },
{
    let mut start: usize = at;
    while start < chars.len() && chars[start] == '['
        invariant
            at <= start,
            start <= chars.len() || start == at,
            chars@ == s@,
            brackets_from(s@, at as int) == (start - at) + brackets_from(s@, start as int),
        decreases chars.len() - start,
    {
        start = start + 1;
    }
    let dimensions = start - at;
    proof {
        lemma_base_type_extent(s@, start as int);
    }
    if dimensions == 0 {
        match parse_base_type(s, chars, at) {
            Some((base, end)) => Some((FieldType::Base(base), end)),
            None => None,
        }
    } else if dimensions > 255 {
        None
    } else {
        match parse_base_type(s, chars, start) {
            Some((base, end)) => Some((FieldType::Array(dimensions as u8, base), end)),
            None => None,
        }
    }
}

/// Reads the descriptor of a field.
///
/// Succeeds exactly on the strings that are one field type and nothing more,
/// and then returns that type.
pub fn parse_field_descriptor(descriptor: &str) -> (r: Result<FieldDescriptor, InvalidDescriptor>)
    ensures
        match r {
            Ok(parsed) => field_descriptor_of(descriptor@) == Some(parsed@),
            Err(e) => field_descriptor_of(descriptor@) is None && e.descriptor@ == descriptor@,
        },
{
    let chars = chars_of(descriptor);
    match parse_field_type(descriptor, &chars, 0) {
        Some((field_type, end)) => if end == chars.len() {
            Ok(FieldDescriptor { field_type })
        } else {
            Err(InvalidDescriptor { descriptor: descriptor.to_owned() })
        },
        None => Err(InvalidDescriptor { descriptor: descriptor.to_owned() }),
    }
}

/// Reads the descriptor of a method.
///
/// Succeeds exactly on the strings that are a parenthesised row of field
/// types followed by `V` or one more field type, and nothing more.
pub fn parse_method_descriptor(descriptor: &str) -> (r: Result<
    MethodDescriptor,
    InvalidDescriptor,
>)
    ensures
        match r {
            Ok(parsed) => method_descriptor_of(descriptor@) == Some(parsed@),
            Err(e) => method_descriptor_of(descriptor@) is None && e.descriptor@ == descriptor@,
        },
{
    let chars = chars_of(descriptor);
    if chars.len() == 0 || chars[0] != '(' {
        return Err(InvalidDescriptor { descriptor: descriptor.to_owned() });
    }
    let mut params: Vec<FieldType> = Vec::new();
    let mut at: usize = 1;
    let mut more = true;
    while more
        invariant
            1 <= at <= chars.len(),
            chars@ == descriptor@,
            more ==> field_types_from(descriptor@, 1) == (
                params@.map_values(|t: FieldType| t@) + field_types_from(descriptor@, at as int).0,
                field_types_from(descriptor@, at as int).1,
            ),
            !more ==> field_types_from(descriptor@, 1) == (
                params@.map_values(|t: FieldType| t@),
                at as int,
            ),
        decreases chars.len() - at, (if more { 1int } else { 0int }),
    {
        let ghost before = params@.map_values(|t: FieldType| t@);
        match parse_field_type(descriptor, &chars, at) {
            Some((field_type, next)) => {
                let ghost first = field_type@;
                params.push(field_type);
                proof {
                    let rest = field_types_from(descriptor@, next as int).0;
                    assert(params@.map_values(|t: FieldType| t@) =~= before + seq![first]);
                    assert(before + (seq![first] + rest) =~= (before + seq![first]) + rest);
                }
                at = next;
            },
            None => {
                proof {
                    assert(before + Seq::<FieldTypeView>::empty() =~= before);
                }
                more = false;
            },
        }
    }
    if at >= chars.len() || chars[at] != ')' {
        return Err(InvalidDescriptor { descriptor: descriptor.to_owned() });
    }
    if at + 1 < chars.len() && chars[at + 1] == 'V' {
        return if at + 2 == chars.len() {
            Ok(MethodDescriptor { params, return_type: None })
        } else {
            Err(InvalidDescriptor { descriptor: descriptor.to_owned() })
        };
    }
    match parse_field_type(descriptor, &chars, at + 1) {
        Some((result, end)) => if end == chars.len() {
            Ok(MethodDescriptor { params, return_type: Some(result) })
        } else {
            Err(InvalidDescriptor { descriptor: descriptor.to_owned() })
        },
        None => Err(InvalidDescriptor { descriptor: descriptor.to_owned() }),
    }
}

} // verus!
