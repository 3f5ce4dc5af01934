//! How values are printed.
//!
//! A number prints as its decimal form, a boolean as `true` or `false`, and
//! a string constant as its text. Floats and doubles have no rendering here.
//! The null reference prints as `null`, an array as its elements between
//! square brackets, and an object as the name of its class followed by its
//! fields between braces, each as `name: value`, those of the super classes
//! first.

use crate::class::{classes_view, fields_view, Class, ClassView, Field, FieldView};
use crate::class_file::constant_pool::pool_utf8;
use crate::error::ExecError;
use crate::heap::{heap_object, Heap, HeapObject, HeapObjectView, HeapView};
use crate::value::JvmValue;
use vstd::prelude::*;
use vstd::utf8::encode_utf8;

verus! {

/// The decimal digits of a natural number, as characters.
pub open spec fn decimal_digits(n: nat) -> Seq<u8>
    decreases n,
{
    if n < 10 {
        seq![(48 + n) as u8]
    } else {
        decimal_digits(n / 10).push((48 + n % 10) as u8)
    }
}

/// The decimal form of an integer: its digits, after a minus sign if it is
/// negative.
pub open spec fn decimal(v: int) -> Seq<u8> {
    if v < 0 {
        seq![45u8] + decimal_digits((-v) as nat)
    } else {
        decimal_digits(v as nat)
    }
}

/// `true`.
pub open spec fn true_text() -> Seq<u8> {
    seq![116u8, 114u8, 117u8, 101u8]
}

/// `false`.
pub open spec fn false_text() -> Seq<u8> {
    seq![102u8, 97u8, 108u8, 115u8, 101u8]
}

/// A number or a boolean as it prints; `None` for a float or a double, and
/// for a value that is neither.
pub open spec fn rendered_scalar(value: JvmValue) -> Option<Seq<u8>> {
    match value {
        JvmValue::Byte(v) => Some(decimal(v as int)),
        JvmValue::Short(v) => Some(decimal(v as int)),
        JvmValue::Int(v) => Some(decimal(v as int)),
        JvmValue::Long(v) => Some(decimal(v as int)),
        JvmValue::Char(v) => Some(decimal(v as int)),
        JvmValue::Boolean(v) => Some(
            if v {
                true_text()
            } else {
                false_text()
            },
        ),
        _ => None,
    }
}

/// The first `n` elements of an array as they print: each as its element
/// type prints, with `, ` between them.
pub open spec fn rendered_elements(elements: Seq<JvmValue>, n: int) -> Result<Seq<u8>, ExecError>
    decreases n,
{
    if n <= 0 {
        Ok(Seq::empty())
    } else {
        match rendered_elements(elements, n - 1) {
            Err(e) => Err(e),
            Ok(before) => match rendered_scalar(elements[n - 1]) {
                None => Err(ExecError::Unprintable),
                Some(text) => Ok(
                    before + (if n > 1 {
                        seq![44u8, 32u8]
                    } else {
                        Seq::empty()
                    }) + text,
                ),
            },
        }
    }
}

/// An array as it prints.
pub open spec fn rendered_array(elements: Seq<JvmValue>) -> Result<Seq<u8>, ExecError> {
    match rendered_elements(elements, elements.len() as int) {
        Err(e) => Err(e),
        Ok(text) => Ok(seq![91u8] + text + seq![93u8]),
    }
}

/// How deep objects may nest in other objects when they are printed.
pub const RENDER_DEPTH: usize = 32;

/// `null`.
pub open spec fn null_text() -> Seq<u8> {
    seq![110u8, 117u8, 108u8, 108u8]
}

/// A value as it prints, with objects nested at most `depth` deep.
pub open spec fn rendered(
    classes: Seq<ClassView>,
    heap: HeapView,
    value: JvmValue,
    depth: nat,
) -> Result<Seq<u8>, ExecError>
    decreases depth, 0int,
{
    match value {
        JvmValue::StringConst { class, index } => if class < classes.len() {
            match pool_utf8(classes[class as int].class_file.constant_pool, index) {
                Ok(text) => Ok(encode_utf8(text)),
                Err(e) => Err(ExecError::BadConstantPoolEntry(e)),
            }
        } else {
            Err(ExecError::InvalidReference)
        },
        JvmValue::Reference(reference) => if reference == 0 {
            Ok(null_text())
        } else {
            match heap_object(heap, reference) {
                Err(e) => Err(e),
                Ok(HeapObjectView::Array { elements, .. }) => rendered_array(elements),
                Ok(HeapObjectView::Object { class, fields }) => if depth == 0 {
                    Err(ExecError::RenderTooDeep)
                } else if class >= classes.len() {
                    Err(ExecError::InvalidReference)
                } else {
                    match rendered_fields(
                        classes,
                        heap,
                        classes[class as int].layout.fields,
                        fields,
                        classes[class as int].layout.fields.len() as int,
                        (depth - 1) as nat,
                    ) {
                        Err(e) => Err(e),
                        Ok(text) => Ok(
                            encode_utf8(classes[class as int].name) + seq![32u8, 123u8] + text
                                + seq![125u8],
                        ),
                    }
                },
            }
        },
        _ => match rendered_scalar(value) {
            Some(text) => Ok(text),
            None => Err(ExecError::Unprintable),
        },
    }
}

/// The first `n` fields of an object as they print: each as `name: value`,
/// with `, ` between them.
pub open spec fn rendered_fields(
    classes: Seq<ClassView>,
    heap: HeapView,
    fields: Seq<FieldView>,
    cells: Seq<JvmValue>,
    n: int,
    depth: nat,
) -> Result<Seq<u8>, ExecError>
    decreases depth, n,
{
    if n <= 0 {
        Ok(Seq::empty())
    } else {
        match rendered_fields(classes, heap, fields, cells, n - 1, depth) {
            Err(e) => Err(e),
            Ok(before) => if n > cells.len() || n > fields.len() {
                Err(ExecError::NoSuchField)
            } else {
                match rendered(classes, heap, cells[n - 1], depth) {
                    Err(e) => Err(e),
                    Ok(value) => Ok(
                        before + (if n > 1 {
                            seq![44u8, 32u8]
                        } else {
                            Seq::empty()
                        }) + encode_utf8(fields[n - 1].name) + seq![58u8, 32u8] + value,
                    ),
                }
            },
        }
    }
}

/// Appends the digits of `n` to `out`.
fn push_digits(out: &mut Vec<u8>, n: u64)
    ensures
        final(out)@ == old(out)@ + decimal_digits(n as nat),
    decreases n,
{
    if n >= 10 {
        push_digits(out, n / 10);
    }
    let digit: u8 = (48 + n % 10) as u8;
    out.push(digit);
    proof {
        if n >= 10 {
            assert(final(out)@ =~= old(out)@ + decimal_digits(n as nat));
        } else {
            assert(final(out)@ =~= old(out)@ + decimal_digits(n as nat));
        }
    }
}

/// Appends the decimal form of `v` to `out`.
pub fn push_decimal(out: &mut Vec<u8>, v: i64)
    ensures
        final(out)@ == old(out)@ + decimal(v as int),
{
    if v < 0 {
        out.push(45u8);
        let magnitude: u64 = (-(v as i128)) as u64;
        push_digits(out, magnitude);
        assert(final(out)@ =~= old(out)@ + decimal(v as int));
    } else {
        push_digits(out, v as u64);
    }
}

/// Appends the utf-8 bytes of `text` to `out`.
fn push_text(out: &mut Vec<u8>, text: &str)
    ensures
        final(out)@ == old(out)@ + encode_utf8(text@),
{
    out.extend_from_slice(text.as_bytes());
}

/// Appends a number or a boolean, as it prints, to `out`. Answers false,
/// and leaves `out` as it is, for a value that has no such rendering.
fn push_scalar(out: &mut Vec<u8>, value: JvmValue) -> (r: bool)
    ensures
        match rendered_scalar(value) {
            Some(text) => r && final(out)@ == old(out)@ + text,
            None => !r && final(out)@ == old(out)@,
        },
{
    match value {
        JvmValue::Byte(v) => {
            push_decimal(out, v as i64);
            true
        },
        JvmValue::Short(v) => {
            push_decimal(out, v as i64);
            true
        },
        JvmValue::Int(v) => {
            push_decimal(out, v as i64);
            true
        },
        JvmValue::Long(v) => {
            push_decimal(out, v);
            true
        },
        JvmValue::Char(v) => {
            push_decimal(out, v as i64);
            true
        },
        JvmValue::Boolean(v) => {
            if v {
                out.push(116u8);
                out.push(114u8);
                out.push(117u8);
                out.push(101u8);
                assert(final(out)@ =~= old(out)@ + true_text());
            } else {
                out.push(102u8);
                out.push(97u8);
                out.push(108u8);
                out.push(115u8);
                out.push(101u8);
                assert(final(out)@ =~= old(out)@ + false_text());
            }
            true
        },
        _ => false,
    }
}

/// Once the rendering of the first `n` elements has failed, that of any more
/// elements fails with the same error.
proof fn lemma_rendered_elements_error(elements: Seq<JvmValue>, n: int, m: int)
    requires
        0 < n <= m,
        rendered_elements(elements, n) is Err,
    ensures
        rendered_elements(elements, m) == rendered_elements(elements, n),
    decreases m - n,
{
    if n < m {
        lemma_rendered_elements_error(elements, n, m - 1);
    }
}

/// Appends an array, as it prints, to `out`. On failure `out` may hold a
/// part of the rendering.
fn push_array(out: &mut Vec<u8>, elements: &Vec<JvmValue>) -> (r: Result<(), ExecError>)
    ensures
        match r {
            Ok(()) => rendered_array(elements@) matches Ok(text) && final(out)@ == old(out)@
                + text,
            Err(e) => rendered_array(elements@) matches Err(err) && err == e,
        },
{
    out.push(91u8);
    let mut i: usize = 0;
    assert(out@ =~= old(out)@ + seq![91u8] + Seq::<u8>::empty());
    while i < elements.len()
        invariant
            i <= elements.len(),
            rendered_elements(elements@, i as int) matches Ok(text) && out@ == old(out)@ + seq![
                91u8,
            ] + text,
        decreases elements.len() - i,
    {
        let ghost before = out@;
        let ghost done = rendered_elements(elements@, i as int)->Ok_0;
        if i > 0 {
            out.push(44u8);
            out.push(32u8);
        }
        let ghost separated = out@;
        if !push_scalar(out, elements[i]) {
            proof {
                lemma_rendered_elements_error(elements@, i + 1, elements@.len() as int);
            }
            return Err(ExecError::Unprintable);
        }
        proof {
            let text = rendered_scalar(elements[i as int])->Some_0;
            let separator: Seq<u8> = if i > 0 {
                seq![44u8, 32u8]
            } else {
                Seq::empty()
            };
            assert(separated =~= before + separator);
            assert(out@ =~= old(out)@ + seq![91u8] + (done + separator + text));
        }
        i = i + 1;
    }
    out.push(93u8);
    proof {
        let text = rendered_elements(elements@, elements@.len() as int)->Ok_0;
        assert(final(out)@ =~= old(out)@ + (seq![91u8] + text + seq![93u8]));
    }
    Ok(())
}

/// Appends a value, as it prints, to `out`. Objects may nest `depth` deep.
/// On failure `out` may hold a part of the rendering.
fn push_value(
    out: &mut Vec<u8>,
    classes: &Vec<Class>,
    heap: &Heap,
    value: JvmValue,
    depth: usize,
) -> (r: Result<(), ExecError>)
    ensures
        match r {
            Ok(()) => rendered(classes_view(classes@), heap@, value, depth as nat) matches Ok(text)
                && final(out)@ == old(out)@ + text,
            Err(e) => rendered(classes_view(classes@), heap@, value, depth as nat) matches Err(
                err,
            ) && err == e,
        },
    decreases depth, 0int,
{
    match value {
        JvmValue::StringConst { class, index } => {
            if class >= classes.len() {
                return Err(ExecError::InvalidReference);
            }
            assert(classes_view(classes@)[class as int] == classes[class as int]@);
            match classes[class].constant_pool().utf8(index) {
                Ok(text) => {
                    push_text(out, text.as_str());
                    Ok(())
                },
                Err(e) => Err(ExecError::BadConstantPoolEntry(e)),
            }
        },
        JvmValue::Reference(reference) => {
            if reference == 0 {
                out.push(110u8);
                out.push(117u8);
                out.push(108u8);
                out.push(108u8);
                assert(final(out)@ =~= old(out)@ + null_text());
                return Ok(());
            }
            match heap.get(reference)? {
                HeapObject::Array { elements, .. } => push_array(out, elements),
                HeapObject::Object { class, fields } => {
                    if depth == 0 {
                        return Err(ExecError::RenderTooDeep);
                    }
                    if *class >= classes.len() {
                        return Err(ExecError::InvalidReference);
                    }
                    let owner = &classes[*class];
                    assert(classes_view(classes@)[*class as int] == owner@);
                    push_text(out, owner.name());
                    out.push(32u8);
                    out.push(123u8);
                    let ghost opened = out@;
                    assert(opened =~= old(out)@ + encode_utf8(owner@.name) + seq![32u8, 123u8]);
                    push_fields(out, classes, heap, owner.fields(), fields, depth - 1)?;
                    out.push(125u8);
                    proof {
                        let text = rendered_fields(
                            classes_view(classes@),
                            heap@,
                            owner@.layout.fields,
                            fields@,
                            owner@.layout.fields.len() as int,
                            (depth - 1) as nat,
                        )->Ok_0;
                        assert(final(out)@ =~= old(out)@ + (encode_utf8(owner@.name) + seq![
                            32u8,
                            123u8,
                        ] + text + seq![125u8]));
                    }
                    Ok(())
                },
            }
        },
        _ => {
            if push_scalar(out, value) {
                Ok(())
            } else {
                Err(ExecError::Unprintable)
            }
        },
    }
}

/// Appends the fields of an object, as they print, to `out`.
fn push_fields(
    out: &mut Vec<u8>,
    classes: &Vec<Class>,
    heap: &Heap,
    fields: &[Field],
    cells: &Vec<JvmValue>,
    depth: usize,
) -> (r: Result<(), ExecError>)
    ensures
        match r {
            Ok(()) => rendered_fields(
                classes_view(classes@),
                heap@,
                fields_view(fields@),
                cells@,
                fields@.len() as int,
                depth as nat,
            ) matches Ok(text) && final(out)@ == old(out)@ + text,
            Err(e) => rendered_fields(
                classes_view(classes@),
                heap@,
                fields_view(fields@),
                cells@,
                fields@.len() as int,
                depth as nat,
            ) matches Err(err) && err == e,
        },
    decreases depth, 1int,
{
    let mut i: usize = 0;
    assert(out@ =~= old(out)@ + Seq::<u8>::empty());
    while i < fields.len()
        invariant
            i <= fields.len(),
            rendered_fields(
                classes_view(classes@),
                heap@,
                fields_view(fields@),
                cells@,
                i as int,
                depth as nat,
            ) matches Ok(text) && out@ == old(out)@ + text,
        decreases fields.len() - i,
    {
        let ghost before = out@;
        let ghost done = rendered_fields(
            classes_view(classes@),
            heap@,
            fields_view(fields@),
            cells@,
            i as int,
            depth as nat,
        )->Ok_0;
        if i >= cells.len() {
            proof {
                lemma_rendered_fields_error(
                    classes_view(classes@),
                    heap@,
                    fields_view(fields@),
                    cells@,
                    i + 1,
                    fields@.len() as int,
                    depth as nat,
                );
            }
            return Err(ExecError::NoSuchField);
        }
        if i > 0 {
            out.push(44u8);
            out.push(32u8);
        }
        assert(fields_view(fields@)[i as int] == fields[i as int]@);
        push_text(out, fields[i].name.as_str());
        out.push(58u8);
        out.push(32u8);
        let ghost labelled = out@;
        match push_value(out, classes, heap, cells[i], depth) {
            Ok(()) => {},
            Err(e) => {
                proof {
                    lemma_rendered_fields_error(
                        classes_view(classes@),
                        heap@,
                        fields_view(fields@),
                        cells@,
                        i + 1,
                        fields@.len() as int,
                        depth as nat,
                    );
                }
                return Err(e);
            },
        }
        proof {
            let value = rendered(classes_view(classes@), heap@, cells[i as int], depth as nat)->Ok_0;
            let separator: Seq<u8> = if i > 0 {
                seq![44u8, 32u8]
            } else {
                Seq::empty()
            };
            assert(labelled =~= before + separator + encode_utf8(fields[i as int]@.name) + seq![
                58u8,
                32u8,
            ]);
            assert(out@ =~= old(out)@ + (done + separator + encode_utf8(fields[i as int]@.name)
                + seq![58u8, 32u8] + value));
        }
        i = i + 1;
    }
    Ok(())
}

/// Once the rendering of the first `n` fields has failed, that of any more
/// fields fails with the same error.
proof fn lemma_rendered_fields_error(
    classes: Seq<ClassView>,
    heap: HeapView,
    fields: Seq<FieldView>,
    cells: Seq<JvmValue>,
    n: int,
    m: int,
    depth: nat,
)
    requires
        0 < n <= m,
        rendered_fields(classes, heap, fields, cells, n, depth) is Err,
    ensures
        rendered_fields(classes, heap, fields, cells, m, depth) == rendered_fields(
            classes,
            heap,
            fields,
            cells,
            n,
            depth,
        ),
    decreases m - n,
{
    if n < m {
        lemma_rendered_fields_error(classes, heap, fields, cells, n, m - 1, depth);
    }
}

/// A value as it prints.
///
/// Fails for a value that has no rendering (a float, a double, a return
/// address, an array of floats or doubles), for a reference that leads
/// nowhere, and for objects that
/// nest deeper than [`RENDER_DEPTH`], as an object that refers to itself
/// does.
pub fn render(classes: &Vec<Class>, heap: &Heap, value: JvmValue) -> (r: Result<
    Vec<u8>,
    ExecError,
>)
    ensures
        match r {
            Ok(text) => rendered(classes_view(classes@), heap@, value, RENDER_DEPTH as nat)
                == Ok::<Seq<u8>, ExecError>(text@),
            Err(e) => rendered(classes_view(classes@), heap@, value, RENDER_DEPTH as nat)
                == Err::<Seq<u8>, ExecError>(e),
        },
{
    let mut out: Vec<u8> = Vec::new();
    push_value(&mut out, classes, heap, value, RENDER_DEPTH)?;
    assert(out@ =~= rendered(classes_view(classes@), heap@, value, RENDER_DEPTH as nat)->Ok_0);
    Ok(out)
}

} // verus!
