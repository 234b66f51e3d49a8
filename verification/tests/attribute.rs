use vita_gl_helpers::attribute::{
    resolve_attributes, Attribute, AttributeFormat, AttributeSize, AttributeTable, AttributeType,
    MissingAttributes,
};
use vita_gl_helpers::call::GlCall;

#[test]
fn test_attribute_format_constants() {
    assert_eq!(AttributeFormat::FLOAT3().size, AttributeSize::Three);
    assert_eq!(AttributeFormat::FLOAT3().type_, AttributeType::Float);
    assert!(!AttributeFormat::FLOAT3().normalized);

    assert_eq!(AttributeFormat::UBYTE4_NORM().size, AttributeSize::Four);
    assert!(AttributeFormat::UBYTE4_NORM().normalized);
}

#[test]
fn attribute_type_enums_match_gl() {
    assert_eq!(AttributeType::Byte.gl_enum(), gl::BYTE);
    assert_eq!(AttributeType::UnsignedByte.gl_enum(), gl::UNSIGNED_BYTE);
    assert_eq!(AttributeType::Short.gl_enum(), gl::SHORT);
    assert_eq!(AttributeType::UnsignedShort.gl_enum(), gl::UNSIGNED_SHORT);
    assert_eq!(AttributeType::Fixed.gl_enum(), gl::FIXED);
    assert_eq!(AttributeType::Float.gl_enum(), gl::FLOAT);
}

#[test]
fn attribute_pointer_call() {
    let a = Attribute::new(3);
    match a.pointer(AttributeFormat::UBYTE4_NORM(), 16, 8) {
        GlCall::VertexAttribPointer { index, size, type_, normalized, stride, offset } => {
            assert_eq!((index, size, type_, normalized, stride, offset), (3, 4, gl::UNSIGNED_BYTE, gl::TRUE, 16, 8));
        }
        other => panic!("unexpected call {:?}", other),
    }
    match a.pointer(AttributeFormat::FLOAT2(), 0, 0) {
        GlCall::VertexAttribPointer { size, type_, normalized, .. } => {
            assert_eq!((size, type_, normalized), (2, gl::FLOAT, gl::FALSE));
        }
        other => panic!("unexpected call {:?}", other),
    }
}

#[test]
fn attribute_enable_disable_divisor_calls() {
    let a = Attribute::new(5);
    assert!(matches!(a.enable(), GlCall::EnableVertexAttribArray { index: 5 }));
    assert!(matches!(a.disable(), GlCall::DisableVertexAttribArray { index: 5 }));
    assert!(matches!(a.divisor(1), GlCall::VertexAttribDivisor { index: 5, divisor: 1 }));
    assert_eq!(a.location(), 5);
}

#[test]
fn resolve_attributes_all_found() {
    let names = vec!["aPos", "aColor"];
    let attrs = resolve_attributes(&names, &vec![2, 0]).unwrap();
    assert_eq!(attrs, vec![Attribute(2), Attribute(0)]);
}

#[test]
fn resolve_attributes_reports_missing_in_order() {
    let names = vec!["aPos", "aColor", "aTex"];
    let err = resolve_attributes(&names, &vec![-1, 1, -5]).unwrap_err();
    assert_eq!(err.0, vec!["aPos", "aTex"]);
    assert_eq!(err.to_string(), "Missing attributes: [aPos, aTex]");
}

#[test]
fn resolve_attributes_unanswered_names_are_missing() {
    let names = vec!["aPos", "aColor"];
    let err = resolve_attributes(&names, &vec![0]).unwrap_err();
    assert_eq!(err.0, vec!["aColor"]);
}

#[test]
fn missing_attributes_from_names() {
    let m: MissingAttributes = vec!["a"].into();
    assert_eq!(m.to_string(), "Missing attributes: [a]");
    assert_eq!(MissingAttributes(vec![]).to_string(), "Missing attributes: []");
}

struct Pair {
    pos: Attribute,
    color: Attribute,
}

impl AttributeTable for Pair {
    fn names() -> Vec<&'static str> {
        vec!["aPos", "aColor"]
    }

    fn from_attributes(attributes: Vec<Attribute>) -> Self {
        Pair { pos: attributes[0], color: attributes[1] }
    }

    fn attributes(&self) -> Vec<Attribute> {
        vec![self.pos, self.color]
    }
}

#[test]
fn attribute_table_enable_all() {
    let t = vita_gl_helpers::attribute::attribute_table_from::<Pair>(&vec![4, 6]).ok().unwrap();
    assert_eq!((t.pos, t.color), (Attribute(4), Attribute(6)));
    let calls = t.enable_all();
    assert_eq!(calls.len(), 2);
    assert!(matches!(calls[0], GlCall::EnableVertexAttribArray { index: 4 }));
    assert!(matches!(calls[1], GlCall::EnableVertexAttribArray { index: 6 }));
    let calls = t.disable_all();
    assert!(matches!(calls[1], GlCall::DisableVertexAttribArray { index: 6 }));
}
