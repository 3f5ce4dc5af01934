//! Field and method descriptors.

use rusty_java::descriptor::{
    parse_field_descriptor, parse_method_descriptor, BaseType, FieldType,
};

#[test]
fn primitive_field_descriptors() {
    let cases = [
        ("B", "Byte"),
        ("C", "Char"),
        ("D", "Double"),
        ("F", "Float"),
        ("I", "Int"),
        ("J", "Long"),
        ("S", "Short"),
        ("Z", "Boolean"),
    ];
    for (text, name) in cases {
        let parsed = parse_field_descriptor(text).unwrap();
        assert_eq!(format!("{:?}", parsed.field_type), format!("Base({})", name));
    }
}

#[test]
fn object_and_array_field_descriptors() {
    match parse_field_descriptor("Ljava/lang/String;").unwrap().field_type {
        FieldType::Base(BaseType::Object(name)) => assert_eq!(name, "java/lang/String"),
        other => panic!("unexpected: {:?}", other),
    }
    match parse_field_descriptor("L;").unwrap().field_type {
        FieldType::Base(BaseType::Object(name)) => assert_eq!(name, ""),
        other => panic!("unexpected: {:?}", other),
    }
    assert!(matches!(
        parse_field_descriptor("[I").unwrap().field_type,
        FieldType::Array(1, BaseType::Int)
    ));
    match parse_field_descriptor("[[[Lp/Q;").unwrap().field_type {
        FieldType::Array(3, BaseType::Object(name)) => assert_eq!(name, "p/Q"),
        other => panic!("unexpected: {:?}", other),
    }
    let deepest = format!("{}I", "[".repeat(255));
    assert!(matches!(
        parse_field_descriptor(&deepest).unwrap().field_type,
        FieldType::Array(255, BaseType::Int)
    ));
    let duplicate = parse_field_descriptor("[[Lx;").unwrap().duplicate();
    assert_eq!(format!("{:?}", duplicate.field_type), "Array(2, Object(\"x\"))");
}

#[test]
fn strings_that_are_no_field_descriptor() {
    for text in ["", "V", "Q", "II", "I ", "L", "Ljava/lang/String", "[", "[[", "[V", "Lx;y", "[Lx;;"] {
        let error = parse_field_descriptor(text).unwrap_err();
        assert_eq!(error.descriptor, text);
    }
    let too_deep = format!("{}I", "[".repeat(256));
    assert!(parse_field_descriptor(&too_deep).is_err());
}

#[test]
fn method_descriptors() {
    let parsed = parse_method_descriptor("()V").unwrap();
    assert!(parsed.params.is_empty());
    assert!(parsed.return_type.is_none());

    let parsed = parse_method_descriptor("(I[JLjava/lang/String;Z)[[D").unwrap();
    assert_eq!(
        format!("{:?}", parsed.params),
        "[Base(Int), Array(1, Long), Base(Object(\"java/lang/String\")), Base(Boolean)]"
    );
    assert_eq!(format!("{:?}", parsed.return_type), "Some(Array(2, Double))");

    let parsed = parse_method_descriptor("([Ljava/lang/String;)V").unwrap();
    assert_eq!(parsed.params.len(), 1);
    assert!(parsed.return_type.is_none());

    let parsed = parse_method_descriptor("()J").unwrap();
    assert!(matches!(parsed.return_type, Some(FieldType::Base(BaseType::Long))));
}

#[test]
fn strings_that_are_no_method_descriptor() {
    for text in [
        "", "V", "()", "(", ")V", "(V)V", "(I", "(I)", "(I)VV", "()VI", "(Q)V", "()Q", "(L)V",
        "(I)V ", "I()V", "()[", "([)V", "()II",
    ] {
        let error = parse_method_descriptor(text).unwrap_err();
        assert_eq!(error.descriptor, text);
    }
}
