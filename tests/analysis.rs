use scale_exact_size::{
    compose_enum, exact_size_field, exact_size_fields, quote, ErrorKind, FieldDescriptor,
    FieldModifier, Location, Shape, StructuralError, TypeRef, Variant, MAX_VARIANTS,
};

fn at(id: u64) -> Location {
    Location { id }
}

fn with_modifiers(skip: bool, compact: bool, encoded_as: Option<TypeRef>, id: u64) -> FieldDescriptor {
    FieldDescriptor { ty: TypeRef { size: Some(4), compact_size: Some(1) }, skip, compact, encoded_as, location: at(id) }
}

fn units(n: usize) -> Vec<Variant> {
    let mut variants = Vec::new();
    for _ in 0..n {
        variants.push(Variant { fields: vec![], skipped: false });
    }
    variants
}

#[test]
fn plain_field_takes_its_type_size() {
    assert_eq!(exact_size_field(&with_modifiers(false, false, None, 1)), Ok(Some(4)));
}

#[test]
fn compact_field_takes_the_compact_size() {
    assert_eq!(exact_size_field(&with_modifiers(false, true, None, 1)), Ok(Some(1)));
}

#[test]
fn encoded_as_field_takes_the_substitute_size() {
    let alt = TypeRef::sized(16);
    assert_eq!(exact_size_field(&with_modifiers(false, false, Some(alt), 1)), Ok(Some(16)));
    let unknown = TypeRef::unsized_type();
    assert_eq!(exact_size_field(&with_modifiers(false, false, Some(unknown), 1)), Ok(None));
}

#[test]
fn skipped_field_takes_nothing() {
    let f = FieldDescriptor { ty: TypeRef::unsized_type(), skip: true, compact: false, encoded_as: None, location: at(1) };
    assert_eq!(exact_size_field(&f), Ok(Some(0)));
}

#[test]
fn compact_and_skip_conflict() {
    let f = with_modifiers(true, true, None, 7);
    let err = StructuralError { kind: ErrorKind::ConflictingFieldModifiers, location: at(7) };
    assert_eq!(exact_size_field(&f), Err(err));
    assert_eq!(f.modifier(), Err(err));
    assert_eq!(quote(&Shape::Struct { fields: vec![f] }), Err(vec![err]));
}

#[test]
fn every_conflicting_field_is_reported() {
    let fields = vec![
        with_modifiers(false, false, None, 1),
        with_modifiers(true, false, Some(TypeRef::sized(2)), 2),
        FieldDescriptor::plain(TypeRef::unsized_type(), at(3)),
        with_modifiers(false, true, Some(TypeRef::sized(2)), 4),
    ];
    let expected = vec![
        StructuralError { kind: ErrorKind::ConflictingFieldModifiers, location: at(2) },
        StructuralError { kind: ErrorKind::ConflictingFieldModifiers, location: at(4) },
    ];
    assert_eq!(exact_size_fields(&fields), Err(expected));
}

#[test]
fn single_modifiers_are_read() {
    assert_eq!(with_modifiers(false, false, None, 1).modifier(), Ok(FieldModifier::Plain));
    assert_eq!(with_modifiers(true, false, None, 1).modifier(), Ok(FieldModifier::Skip));
    assert_eq!(with_modifiers(false, true, None, 1).modifier(), Ok(FieldModifier::Compact));
    let alt = TypeRef::sized(2);
    assert_eq!(with_modifiers(false, false, Some(alt), 1).modifier(), Ok(FieldModifier::EncodedAs(alt)));
}

#[test]
fn unknown_field_anywhere_makes_struct_unknown() {
    let fields = vec![
        FieldDescriptor::plain(TypeRef::sized(8), at(1)),
        FieldDescriptor::plain(TypeRef::unsized_type(), at(2)),
        FieldDescriptor::plain(TypeRef::sized(2), at(3)),
    ];
    assert_eq!(exact_size_fields(&fields), Ok(None));
}

#[test]
fn field_order_does_not_change_the_total() {
    let a = FieldDescriptor::plain(TypeRef::sized(4), at(1));
    let b = FieldDescriptor::plain(TypeRef::sized(8), at(2));
    assert_eq!(exact_size_fields(&vec![a, b]), Ok(Some(12)));
    assert_eq!(exact_size_fields(&vec![b, a]), Ok(Some(12)));
}

#[test]
fn large_sizes_add_up_exactly() {
    let fields = vec![
        FieldDescriptor::plain(TypeRef::sized(u64::MAX - 1), at(1)),
        FieldDescriptor::plain(TypeRef::sized(1), at(2)),
    ];
    assert_eq!(exact_size_fields(&fields), Ok(Some(u64::MAX)));
}

#[test]
fn enum_with_256_unit_variants_is_one_byte() {
    assert_eq!(MAX_VARIANTS, 256);
    assert_eq!(compose_enum(&units(256), at(0)), Ok(Some(1)));
}

#[test]
fn enum_with_257_variants_is_rejected() {
    let err = StructuralError { kind: ErrorKind::TooManyVariants, location: at(9) };
    assert_eq!(compose_enum(&units(257), at(9)), Err(err));
    assert_eq!(quote(&Shape::Enum { variants: units(257), location: at(9) }), Err(vec![err]));
}

#[test]
fn skipped_variants_are_not_counted() {
    let mut variants = units(256);
    variants.push(Variant { fields: vec![], skipped: true });
    assert_eq!(compose_enum(&variants, at(0)), Ok(Some(1)));
    let only_skipped = vec![Variant { fields: vec![], skipped: true }];
    assert_eq!(compose_enum(&only_skipped, at(0)), Ok(None));
}

#[test]
fn union_is_unsupported() {
    let err = StructuralError { kind: ErrorKind::UnsupportedShape, location: at(5) };
    assert_eq!(quote(&Shape::Union { location: at(5) }), Err(vec![err]));
    assert_eq!(err.message(), "Union types are not supported.");
}

#[test]
fn error_messages_name_the_problem() {
    let conflict = StructuralError { kind: ErrorKind::ConflictingFieldModifiers, location: at(1) };
    assert_eq!(conflict.message(), "`encoded_as`, `compact` and `skip` can only be used one at a time!");
    let too_many = StructuralError { kind: ErrorKind::TooManyVariants, location: at(1) };
    assert_eq!(too_many.message(), "Currently only enums with at most 256 variants are encodable.");
}

#[test]
fn analysis_is_repeatable() {
    let shape = Shape::Struct {
        fields: vec![
            FieldDescriptor::plain(TypeRef::sized(4), at(1)),
            with_modifiers(true, true, None, 2),
        ],
    };
    assert_eq!(quote(&shape), quote(&shape));
    let shape = Shape::Enum { variants: units(3), location: at(0) };
    assert_eq!(quote(&shape), quote(&shape));
}

#[test]
fn any_reordering_keeps_the_total() {
    let a = FieldDescriptor::plain(TypeRef::sized(1), at(1));
    let b = FieldDescriptor::plain(TypeRef::sized(2), at(2));
    let c = FieldDescriptor::plain(TypeRef::sized(4), at(3));
    assert_eq!(exact_size_fields(&vec![a, b, c]), Ok(Some(7)));
    assert_eq!(exact_size_fields(&vec![c, a, b]), Ok(Some(7)));
    assert_eq!(exact_size_fields(&vec![b, c, a]), Ok(Some(7)));
}

#[test]
fn skip_with_encoded_as_is_rejected_with_its_message() {
    let f = with_modifiers(true, false, Some(TypeRef::sized(8)), 3);
    let errors = quote(&Shape::Struct { fields: vec![f] }).unwrap_err();
    assert_eq!(errors.len(), 1);
    assert_eq!(errors[0].kind, ErrorKind::ConflictingFieldModifiers);
    assert_eq!(errors[0].location, at(3));
    assert_eq!(errors[0].message(), "`encoded_as`, `compact` and `skip` can only be used one at a time!");
}
