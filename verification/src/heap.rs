//! The heap.
//!
//! Objects and arrays live on the heap for as long as the machine does;
//! nothing is ever collected. A reference is the place of an object on the
//! heap, counted from one; zero is the null reference. An object carries the
//! number of its class and one cell per instance field, in the order of the
//! class's layout. An array carries its element type and one cell per
//! element, each holding a value of that type.

use crate::arith::{
    int_to_boolean, int_to_byte, int_to_char, int_to_short, low_bit, wrap16, wrap8, wrap_char,
};
use crate::error::ExecError;
use crate::instructions::{ArrayLoadStoreType, ArrayType};
use crate::value::JvmValue;
use vstd::prelude::*;

verus! {

/// What a reference leads to.
#[derive(Debug)]
pub enum HeapObject {
    Object { class: usize, fields: Vec<JvmValue> },
    Array { atype: ArrayType, elements: Vec<JvmValue> },
}

/// [`HeapObject`] as contracts see it.
pub enum HeapObjectView {
    Object { class: usize, fields: Seq<JvmValue> },
    Array { atype: ArrayType, elements: Seq<JvmValue> },
}

impl View for HeapObject {
    type V = HeapObjectView;

    open spec fn view(&self) -> HeapObjectView {
        match self {
            HeapObject::Object { class, fields } => HeapObjectView::Object {
                class: *class,
                fields: fields@,
            },
            HeapObject::Array { atype, elements } => HeapObjectView::Array {
                atype: *atype,
                elements: elements@,
            },
        }
    }
}

/// The heap of a machine.
pub struct Heap {
    objects: Vec<HeapObject>,
}

/// The heap as contracts see it: its objects, the one that reference `r`
/// leads to at place `r - 1`.
pub type HeapView = Seq<HeapObjectView>;

impl View for Heap {
    type V = HeapView;

    closed spec fn view(&self) -> HeapView {
        self.objects@.map_values(|object: HeapObject| object@)
    }
}

/// What `reference` leads to.
pub open spec fn heap_object(heap: HeapView, reference: usize) -> Result<HeapObjectView, ExecError> {
    if reference == 0 {
        Err(ExecError::NullReference)
    } else if reference > heap.len() {
        Err(ExecError::InvalidReference)
    } else {
        Ok(heap[reference - 1])
    }
}

/// The value that a cell of a new array of the given element type holds:
/// zero, or false for a boolean.
pub open spec fn zero_of(atype: ArrayType) -> JvmValue {
    match atype {
        ArrayType::Boolean => JvmValue::Boolean(false),
        ArrayType::Char => JvmValue::Char(0),
        ArrayType::Float => JvmValue::Float(0),
        ArrayType::Double => JvmValue::Double(0),
        ArrayType::Byte => JvmValue::Byte(0),
        ArrayType::Short => JvmValue::Short(0),
        ArrayType::Int => JvmValue::Int(0),
        ArrayType::Long => JvmValue::Long(0),
    }
}

/// The cells of a new array: `length` zeros of the element type.
pub open spec fn zeros(atype: ArrayType, length: int) -> Seq<JvmValue> {
    Seq::new(length as nat, |i: int| zero_of(atype))
}

/// The heap with one more object, and the reference to it. A heap that
/// cannot hold another object is left as it is.
pub open spec fn heap_allocate(heap: HeapView, object: HeapObjectView) -> Result<
    (HeapView, usize),
    ExecError,
> {
    if heap.len() >= usize::MAX {
        Err(ExecError::HeapExhausted)
    } else {
        Ok((heap.push(object), (heap.len() + 1) as usize))
    }
}

/// The heap with a new array of `length` zero cells of the element type, and
/// the reference to it.
pub open spec fn heap_new_array(heap: HeapView, atype: ArrayType, length: i32) -> Result<
    (HeapView, usize),
    ExecError,
> {
    if length < 0 {
        Err(ExecError::NegativeArraySize)
    } else {
        heap_allocate(heap, HeapObjectView::Array { atype, elements: zeros(atype, length as int) })
    }
}

/// The length of the array that `reference` leads to.
pub open spec fn heap_array_length(heap: HeapView, reference: usize) -> Result<i32, ExecError> {
    match heap_object(heap, reference) {
        Err(e) => Err(e),
        Ok(HeapObjectView::Array { elements, .. }) => Ok(elements.len() as i32),
        Ok(HeapObjectView::Object { .. }) => Err(ExecError::NotAnArray),
    }
}

/// Whether a store instruction for elements of type `store_type` may write
/// to an array of element type `atype`. The byte store serves byte and
/// boolean arrays; the reference store serves none of these arrays.
pub open spec fn store_matches(atype: ArrayType, store_type: ArrayLoadStoreType) -> bool {
    match store_type {
        ArrayLoadStoreType::Int => atype == ArrayType::Int,
        ArrayLoadStoreType::Long => atype == ArrayType::Long,
        ArrayLoadStoreType::Float => atype == ArrayType::Float,
        ArrayLoadStoreType::Double => atype == ArrayType::Double,
        ArrayLoadStoreType::Byte => atype == ArrayType::Byte || atype == ArrayType::Boolean,
        ArrayLoadStoreType::Char => atype == ArrayType::Char,
        ArrayLoadStoreType::Short => atype == ArrayType::Short,
        ArrayLoadStoreType::Reference => false,
    }
}

/// What a cell of an array of element type `atype` holds after `value` is
/// stored into it. An int that goes into a narrower cell keeps its low bits;
/// `None` for a value of a kind that the array does not take.
pub open spec fn cell_of(atype: ArrayType, value: JvmValue) -> Option<JvmValue> {
    match (atype, value) {
        (ArrayType::Int, JvmValue::Int(v)) => Some(JvmValue::Int(v)),
        (ArrayType::Long, JvmValue::Long(v)) => Some(JvmValue::Long(v)),
        (ArrayType::Float, JvmValue::Float(v)) => Some(JvmValue::Float(v)),
        (ArrayType::Double, JvmValue::Double(v)) => Some(JvmValue::Double(v)),
        (ArrayType::Byte, JvmValue::Int(v)) => Some(JvmValue::Byte(wrap8(v as int))),
        (ArrayType::Short, JvmValue::Int(v)) => Some(JvmValue::Short(wrap16(v as int))),
        (ArrayType::Char, JvmValue::Int(v)) => Some(JvmValue::Char(wrap_char(v as int))),
        (ArrayType::Boolean, JvmValue::Int(v)) => Some(JvmValue::Boolean(low_bit(v as int))),
        _ => None,
    }
}

/// The heap after `value` is stored at `index` of the array that `reference`
/// leads to, by a store instruction for elements of type `store_type`.
pub open spec fn heap_array_store(
    heap: HeapView,
    reference: usize,
    store_type: ArrayLoadStoreType,
    index: i32,
    value: JvmValue,
) -> Result<HeapView, ExecError> {
    match heap_object(heap, reference) {
        Err(e) => Err(e),
        Ok(HeapObjectView::Object { .. }) => Err(ExecError::NotAnArray),
        Ok(HeapObjectView::Array { atype, elements }) => if !store_matches(atype, store_type) {
            Err(ExecError::ArrayTypeMismatch)
        } else if index < 0 || index >= elements.len() {
            Err(ExecError::ArrayIndexOutOfBounds)
        } else {
            match cell_of(atype, value) {
                Some(cell) => Ok(
                    heap.update(
                        reference - 1,
                        HeapObjectView::Array {
                            atype,
                            elements: elements.update(index as int, cell),
                        },
                    ),
                ),
                None => Err(ExecError::TypeMismatch),
            }
        },
    }
}

/// What the cell at `index` of the array that `reference` leads to holds.
pub open spec fn heap_array_cell(heap: HeapView, reference: usize, index: i32) -> Result<
    JvmValue,
    ExecError,
> {
    match heap_object(heap, reference) {
        Err(e) => Err(e),
        Ok(HeapObjectView::Object { .. }) => Err(ExecError::NotAnArray),
        Ok(HeapObjectView::Array { elements, .. }) => if index < 0 || index >= elements.len() {
            Err(ExecError::ArrayIndexOutOfBounds)
        } else {
            Ok(elements[index as int])
        },
    }
}

/// The class of the object that `reference` leads to.
pub open spec fn heap_class_of(heap: HeapView, reference: usize) -> Result<usize, ExecError> {
    match heap_object(heap, reference) {
        Err(e) => Err(e),
        Ok(HeapObjectView::Object { class, .. }) => Ok(class),
        Ok(HeapObjectView::Array { .. }) => Err(ExecError::NotAnObject),
    }
}

/// What the field with ordinal `ordinal` of the object that `reference`
/// leads to holds.
pub open spec fn heap_get_field(heap: HeapView, reference: usize, ordinal: usize) -> Result<
    JvmValue,
    ExecError,
> {
    match heap_object(heap, reference) {
        Err(e) => Err(e),
        Ok(HeapObjectView::Array { .. }) => Err(ExecError::NotAnObject),
        Ok(HeapObjectView::Object { fields, .. }) => if ordinal < fields.len() {
            Ok(fields[ordinal as int])
        } else {
            Err(ExecError::NoSuchField)
        },
    }
}

/// The heap after `value` is written to the field with ordinal `ordinal` of
/// the object that `reference` leads to.
pub open spec fn heap_put_field(
    heap: HeapView,
    reference: usize,
    ordinal: usize,
    value: JvmValue,
) -> Result<HeapView, ExecError> {
    match heap_object(heap, reference) {
        Err(e) => Err(e),
        Ok(HeapObjectView::Array { .. }) => Err(ExecError::NotAnObject),
        Ok(HeapObjectView::Object { class, fields }) => if ordinal < fields.len() {
            Ok(
                heap.update(
                    reference - 1,
                    HeapObjectView::Object { class, fields: fields.update(ordinal as int, value) },
                ),
            )
        } else {
            Err(ExecError::NoSuchField)
        },
    }
}

/// No array of the heap is longer than an int can say.
pub open spec fn heap_wf(heap: HeapView) -> bool {
    forall|i: int|
        0 <= i < heap.len() ==> (#[trigger] heap[i] matches HeapObjectView::Array {
            elements,
            ..
        } ==> elements.len() <= i32::MAX)
}

/// A field holds what was last written to it: a read of the field that was
/// written sees the value written.
pub proof fn lemma_read_sees_last_write(
    heap: HeapView,
    reference: usize,
    ordinal: usize,
    value: JvmValue,
)
    requires
        heap_put_field(heap, reference, ordinal, value) is Ok,
    ensures
        heap_get_field(heap_put_field(heap, reference, ordinal, value).unwrap(), reference, ordinal)
            == Ok::<JvmValue, ExecError>(value),
{
}

/// A write to one field leaves every other field of every object as it was.
pub proof fn lemma_write_leaves_other_fields(
    heap: HeapView,
    reference: usize,
    ordinal: usize,
    value: JvmValue,
    other_reference: usize,
    other_ordinal: usize,
)
    requires
        heap_put_field(heap, reference, ordinal, value) is Ok,
        other_reference != reference || other_ordinal != ordinal,
    ensures
        heap_get_field(
            heap_put_field(heap, reference, ordinal, value).unwrap(),
            other_reference,
            other_ordinal,
        ) == heap_get_field(heap, other_reference, other_ordinal),
{
}

/// A new object holds what it was made with until it is written to, and
/// allocation changes no object that was there before.
pub proof fn lemma_allocation_is_fresh(
    heap: HeapView,
    object: HeapObjectView,
    other_reference: usize,
)
    requires
        heap_allocate(heap, object) is Ok,
        other_reference <= heap.len(),
    ensures
        ({
            let (after, reference) = heap_allocate(heap, object).unwrap();
            &&& reference != 0
            &&& reference != other_reference
            &&& heap_object(after, reference) == Ok::<HeapObjectView, ExecError>(object)
            &&& heap_object(after, other_reference) == heap_object(heap, other_reference)
        }),
{
}

/// The length that `arraylength` reports of a new array is the length that
/// `newarray` was asked for, whatever the element type; the reference to the
/// array is not null, and every cell of it holds the zero of its type.
pub proof fn lemma_new_array_length(heap: HeapView, atype: ArrayType, length: i32)
    requires
        length >= 0,
        heap_new_array(heap, atype, length) is Ok,
    ensures
        ({
            let (after, reference) = heap_new_array(heap, atype, length).unwrap();
            &&& reference != 0
            &&& heap_array_length(after, reference) == Ok::<i32, ExecError>(length)
            &&& forall|i: i32|
                0 <= i < length ==> #[trigger] heap_array_cell(after, reference, i) == Ok::<
                    JvmValue,
                    ExecError,
                >(zero_of(atype))
        }),
{
}

/// An element holds what was last stored into it: a read of the cell that
/// was written sees the cell that the store made of the value.
pub proof fn lemma_cell_holds_last_store(
    heap: HeapView,
    reference: usize,
    store_type: ArrayLoadStoreType,
    index: i32,
    value: JvmValue,
)
    requires
        heap_array_store(heap, reference, store_type, index, value) is Ok,
    ensures
        ({
            let after = heap_array_store(heap, reference, store_type, index, value).unwrap();
            let atype = heap_object(heap, reference).unwrap()->Array_atype;
            &&& heap_array_cell(after, reference, index) == Ok::<JvmValue, ExecError>(
                cell_of(atype, value).unwrap(),
            )
            &&& heap_array_length(after, reference) == heap_array_length(heap, reference)
        }),
{
}

/// The value that a cell of a new array of the given element type holds.
pub fn zero_value(atype: ArrayType) -> (r: JvmValue)
    ensures
        r == zero_of(atype),
{
    match atype {
        ArrayType::Boolean => JvmValue::Boolean(false),
        ArrayType::Char => JvmValue::Char(0),
        ArrayType::Float => JvmValue::Float(0),
        ArrayType::Double => JvmValue::Double(0),
        ArrayType::Byte => JvmValue::Byte(0),
        ArrayType::Short => JvmValue::Short(0),
        ArrayType::Int => JvmValue::Int(0),
        ArrayType::Long => JvmValue::Long(0),
    }
}

/// Whether a store instruction for elements of type `store_type` may write
/// to an array of element type `atype`.
fn matches_store(atype: ArrayType, store_type: ArrayLoadStoreType) -> (r: bool)
    ensures
        r == store_matches(atype, store_type),
{
    match store_type {
        ArrayLoadStoreType::Int => atype == ArrayType::Int,
        ArrayLoadStoreType::Long => atype == ArrayType::Long,
        ArrayLoadStoreType::Float => atype == ArrayType::Float,
        ArrayLoadStoreType::Double => atype == ArrayType::Double,
        ArrayLoadStoreType::Byte => atype == ArrayType::Byte || atype == ArrayType::Boolean,
        ArrayLoadStoreType::Char => atype == ArrayType::Char,
        ArrayLoadStoreType::Short => atype == ArrayType::Short,
        ArrayLoadStoreType::Reference => false,
    }
}

/// What a cell of an array of element type `atype` holds after `value` is
/// stored into it.
fn cell(atype: ArrayType, value: JvmValue) -> (r: Option<JvmValue>)
    ensures
        r == cell_of(atype, value),
{
    match (atype, value) {
        (ArrayType::Int, JvmValue::Int(v)) => Some(JvmValue::Int(v)),
        (ArrayType::Long, JvmValue::Long(v)) => Some(JvmValue::Long(v)),
        (ArrayType::Float, JvmValue::Float(v)) => Some(JvmValue::Float(v)),
        (ArrayType::Double, JvmValue::Double(v)) => Some(JvmValue::Double(v)),
        (ArrayType::Byte, JvmValue::Int(v)) => Some(JvmValue::Byte(int_to_byte(v))),
        (ArrayType::Short, JvmValue::Int(v)) => Some(JvmValue::Short(int_to_short(v))),
        (ArrayType::Char, JvmValue::Int(v)) => Some(JvmValue::Char(int_to_char(v))),
        (ArrayType::Boolean, JvmValue::Int(v)) => Some(JvmValue::Boolean(int_to_boolean(v))),
        _ => None,
    }
}

impl Heap {
    /// No array of the heap is longer than an int can say.
    pub closed spec fn wf(&self) -> bool {
        heap_wf(self@)
    }

    /// A heap without objects.
    pub fn new() -> (r: Heap)
        ensures
            r@ == Seq::<HeapObjectView>::empty(),
            r.wf(),
    {
        let heap = Heap { objects: Vec::new() };
        assert(heap@ =~= Seq::<HeapObjectView>::empty());
        heap
    }

    /// Puts an object on the heap and returns the reference to it.
    fn allocate(&mut self, object: HeapObject) -> (r: Result<usize, ExecError>)
        requires
            old(self).wf(),
            object@ matches HeapObjectView::Array { elements, .. } ==> elements.len() <= i32::MAX,
        ensures
            final(self).wf(),
            match r {
                Ok(reference) => heap_allocate(old(self)@, object@) == Ok::<
                    (HeapView, usize),
                    ExecError,
                >((final(self)@, reference)),
                Err(e) => heap_allocate(old(self)@, object@) == Err::<
                    (HeapView, usize),
                    ExecError,
                >(e) && final(self)@ == old(self)@,
            },
    {
        if self.objects.len() == usize::MAX {
            return Err(ExecError::HeapExhausted);
        }
        let ghost view = object@;
        self.objects.push(object);
        assert(self@ =~= old(self)@.push(view));
        Ok(self.objects.len())
    }

    /// `newarray`: puts an array of `length` zero cells of the element type
    /// on the heap.
    pub fn new_array(&mut self, atype: ArrayType, length: i32) -> (r: Result<usize, ExecError>)
        requires
            old(self).wf(),
        ensures
            final(self).wf(),
            match r {
                Ok(reference) => heap_new_array(old(self)@, atype, length) == Ok::<
                    (HeapView, usize),
                    ExecError,
                >((final(self)@, reference)),
                Err(e) => heap_new_array(old(self)@, atype, length) == Err::<
                    (HeapView, usize),
                    ExecError,
                >(e) && final(self)@ == old(self)@,
            },
    {
        if length < 0 {
            return Err(ExecError::NegativeArraySize);
        }
        let elements: Vec<JvmValue> = vec![zero_value(atype); length as usize];
        assert(elements@ =~= zeros(atype, length as int));
        self.allocate(HeapObject::Array { atype, elements })
    }

    /// `new`: puts an object of class `class` with the given cells on the
    /// heap.
    pub fn new_object(&mut self, class: usize, fields: Vec<JvmValue>) -> (r: Result<
        usize,
        ExecError,
    >)
        requires
            old(self).wf(),
        ensures
            final(self).wf(),
            match r {
                Ok(reference) => heap_allocate(
                    old(self)@,
                    HeapObjectView::Object { class, fields: fields@ },
                ) == Ok::<(HeapView, usize), ExecError>((final(self)@, reference)),
                Err(e) => heap_allocate(
                    old(self)@,
                    HeapObjectView::Object { class, fields: fields@ },
                ) == Err::<(HeapView, usize), ExecError>(e) && final(self)@ == old(self)@,
            },
    {
        self.allocate(HeapObject::Object { class, fields })
    }

    /// What `reference` leads to.
    pub fn get(&self, reference: usize) -> (r: Result<&HeapObject, ExecError>)
        ensures
            match r {
                Ok(object) => heap_object(self@, reference) == Ok::<HeapObjectView, ExecError>(
                    object@,
                ),
                Err(e) => heap_object(self@, reference) == Err::<HeapObjectView, ExecError>(e),
            },
    {
        if reference == 0 {
            Err(ExecError::NullReference)
        } else if reference > self.objects.len() {
            Err(ExecError::InvalidReference)
        } else {
            Ok(&self.objects[reference - 1])
        }
    }

    /// `arraylength`.
    pub fn array_length(&self, reference: usize) -> (r: Result<i32, ExecError>)
        requires
            self.wf(),
        ensures
            r == heap_array_length(self@, reference),
    {
        match self.get(reference)? {
            HeapObject::Array { elements, .. } => Ok(elements.len() as i32),
            HeapObject::Object { .. } => Err(ExecError::NotAnArray),
        }
    }

    /// The class of the object that `reference` leads to.
    pub fn class_of(&self, reference: usize) -> (r: Result<usize, ExecError>)
        ensures
            r == heap_class_of(self@, reference),
    {
        match self.get(reference)? {
            HeapObject::Object { class, .. } => Ok(*class),
            HeapObject::Array { .. } => Err(ExecError::NotAnObject),
        }
    }

    /// `getfield`, once the ordinal of the field is known.
    pub fn get_field(&self, reference: usize, ordinal: usize) -> (r: Result<JvmValue, ExecError>)
        ensures
            r == heap_get_field(self@, reference, ordinal),
    {
        match self.get(reference)? {
            HeapObject::Array { .. } => Err(ExecError::NotAnObject),
            HeapObject::Object { fields, .. } => if ordinal < fields.len() {
                Ok(fields[ordinal])
            } else {
                Err(ExecError::NoSuchField)
            },
        }
    }

    /// `putfield`, once the ordinal of the field is known.
    pub fn put_field(&mut self, reference: usize, ordinal: usize, value: JvmValue) -> (r: Result<
        (),
        ExecError,
    >)
        requires
            old(self).wf(),
        ensures
            final(self).wf(),
            match r {
                Ok(()) => heap_put_field(old(self)@, reference, ordinal, value) == Ok::<
                    HeapView,
                    ExecError,
                >(final(self)@),
                Err(e) => heap_put_field(old(self)@, reference, ordinal, value) == Err::<
                    HeapView,
                    ExecError,
                >(e) && final(self)@ == old(self)@,
            },
    {
        if reference == 0 {
            return Err(ExecError::NullReference);
        }
        if reference > self.objects.len() {
            return Err(ExecError::InvalidReference);
        }
        match &mut self.objects[reference - 1] {
            HeapObject::Array { .. } => Err(ExecError::NotAnObject),
            HeapObject::Object { fields, .. } => {
                if ordinal < fields.len() {
                    fields.set(ordinal, value);
                    assert(self@ =~= heap_put_field(
                        old(self)@,
                        reference,
                        ordinal,
                        value,
                    ).unwrap());
                    Ok(())
                } else {
                    Err(ExecError::NoSuchField)
                }
            },
        }
    }

    /// `arraystore`: stores `value` at `index` of the array that `reference`
    /// leads to, if the element type of the array is that of the store.
    pub fn array_store(
        &mut self,
        reference: usize,
        store_type: ArrayLoadStoreType,
        index: i32,
        value: JvmValue,
    ) -> (r: Result<(), ExecError>)
        requires
            old(self).wf(),
        ensures
            final(self).wf(),
            match r {
                Ok(()) => heap_array_store(old(self)@, reference, store_type, index, value)
                    == Ok::<HeapView, ExecError>(final(self)@),
                Err(e) => heap_array_store(old(self)@, reference, store_type, index, value)
                    == Err::<HeapView, ExecError>(e) && final(self)@ == old(self)@,
            },
    {
        let cell = match self.get(reference)? {
            HeapObject::Object { .. } => {
                return Err(ExecError::NotAnArray);
            },
            HeapObject::Array { atype, elements } => {
                if !matches_store(*atype, store_type) {
                    return Err(ExecError::ArrayTypeMismatch);
                }
                if index < 0 || index as usize >= elements.len() {
                    return Err(ExecError::ArrayIndexOutOfBounds);
                }
                match cell(*atype, value) {
                    Some(cell) => cell,
                    None => {
                        return Err(ExecError::TypeMismatch);
                    },
                }
            },
        };
        match &mut self.objects[reference - 1] {
            HeapObject::Object { .. } => {},
            HeapObject::Array { elements, .. } => {
                elements.set(index as usize, cell);
            },
        }
        assert(self@ =~= heap_array_store(old(self)@, reference, store_type, index, value).unwrap());
        Ok(())
    }
}

} // verus!
