//! The shapes that the analysis reads: fields, their modifiers, variants and errors.
use vstd::prelude::*;

verus! {

/// Where a declaration stands in its source, used only to anchor diagnostics.
#[derive(Clone, Copy, Debug, PartialEq, Eq, Structural)]
pub struct Location {
    pub id: u64,
}

/// What is known of a declared type: the exact encoded size of its default
/// representation and that of its compact representation (`None` where the
/// size varies with the value).
#[derive(Clone, Copy, Debug, PartialEq, Eq, Structural)]
pub struct TypeRef {
    pub size: Option<u64>,
    pub compact_size: Option<u64>,
}

impl TypeRef {
    /// A type whose default representation always takes `n` bytes and whose
    /// compact representation has no fixed size.
    pub fn sized(n: u64) -> (r: TypeRef)
        ensures
            r.size == Some(n),
            r.compact_size.is_none(),
    {
        TypeRef { size: Some(n), compact_size: None }
    }

    /// A type whose encoded size depends on the value, in both representations.
    pub fn unsized_type() -> (r: TypeRef)
        ensures
            r.size.is_none(),
            r.compact_size.is_none(),
    {
        TypeRef { size: None, compact_size: None }
    }
}

/// The single encoding modifier of a field, once the field's annotations
/// have been checked for exclusivity.
#[derive(Clone, Copy, Debug, PartialEq, Eq, Structural)]
pub enum FieldModifier {
    Plain,
    Skip,
    Compact,
    EncodedAs(TypeRef),
}

/// One field of a struct or of an enum variant, with the annotations that
/// were found on it. More than one of `skip`, `compact` and `encoded_as` on
/// one field is a schema error.
#[derive(Clone, Copy, Debug, PartialEq, Eq, Structural)]
pub struct FieldDescriptor {
    pub ty: TypeRef,
    pub skip: bool,
    pub compact: bool,
    pub encoded_as: Option<TypeRef>,
    pub location: Location,
}

/// The number of encoding modifiers annotated on a field.
pub open spec fn active_modifiers(f: FieldDescriptor) -> int {
    (if f.skip { 1int } else { 0int }) + (if f.compact { 1int } else { 0int }) + (if f.encoded_as.is_some() { 1int } else { 0int })
}

/// A field carries two or more encoding modifiers.
pub open spec fn conflicting(f: FieldDescriptor) -> bool {
    active_modifiers(f) > 1
}

/// The modifier of a field without conflicts.
pub open spec fn modifier_of(f: FieldDescriptor) -> FieldModifier {
    if f.compact {
        FieldModifier::Compact
    } else if f.encoded_as.is_some() {
        FieldModifier::EncodedAs(f.encoded_as.unwrap())
    } else if f.skip {
        FieldModifier::Skip
    } else {
        FieldModifier::Plain
    }
}

/// The kinds of structural error that reject a declared type.
#[derive(Clone, Copy, Debug, PartialEq, Eq, Structural)]
pub enum ErrorKind {
    ConflictingFieldModifiers,
    TooManyVariants,
    UnsupportedShape,
}

/// A rejection of a declared type's schema, anchored at the offending
/// field, variant list or type declaration.
#[derive(Clone, Copy, Debug, PartialEq, Eq, Structural)]
pub struct StructuralError {
    pub kind: ErrorKind,
    pub location: Location,
}

impl StructuralError {
    /// The message shown to the author of the rejected type.
    pub fn message(&self) -> (r: &'static str)
        ensures
            self.kind == ErrorKind::ConflictingFieldModifiers ==> r@
                == "`encoded_as`, `compact` and `skip` can only be used one at a time!"@,
            self.kind == ErrorKind::TooManyVariants ==> r@
                == "Currently only enums with at most 256 variants are encodable."@,
            self.kind == ErrorKind::UnsupportedShape ==> r@ == "Union types are not supported."@,
    {
        match self.kind {
            ErrorKind::ConflictingFieldModifiers => "`encoded_as`, `compact` and `skip` can only be used one at a time!",
            ErrorKind::TooManyVariants => "Currently only enums with at most 256 variants are encodable.",
            ErrorKind::UnsupportedShape => "Union types are not supported.",
        }
    }
}

impl FieldDescriptor {
    /// A field of type `ty` without annotations.
    pub fn plain(ty: TypeRef, location: Location) -> (r: FieldDescriptor)
        ensures
            r == (FieldDescriptor { ty, skip: false, compact: false, encoded_as: None, location }),
    {
        FieldDescriptor { ty, skip: false, compact: false, encoded_as: None, location }
    }

    /// The field's single modifier, or `ConflictingFieldModifiers` at the
    /// field's location when more than one is annotated.
    pub fn modifier(&self) -> (r: Result<FieldModifier, StructuralError>)
        ensures
            conflicting(*self) <==> r.is_err(),
            r matches Ok(m) ==> m == modifier_of(*self),
            r matches Err(e) ==> e == (StructuralError {
                kind: ErrorKind::ConflictingFieldModifiers,
                location: self.location,
            }),
    {
        let n: u8 = (self.skip as u8) + (self.compact as u8) + (self.encoded_as.is_some() as u8);
        if n > 1 {
            Err(StructuralError { kind: ErrorKind::ConflictingFieldModifiers, location: self.location })
        } else if self.compact {
            Ok(FieldModifier::Compact)
        } else if let Some(alt) = self.encoded_as {
            Ok(FieldModifier::EncodedAs(alt))
        } else if self.skip {
            Ok(FieldModifier::Skip)
        } else {
            Ok(FieldModifier::Plain)
        }
    }
}

/// One variant of an enum. A variant marked `skipped` is left out of the
/// encoding altogether and is not counted.
#[derive(Debug)]
pub struct Variant {
    pub fields: Vec<FieldDescriptor>,
    pub skipped: bool,
}

/// A variant with no fields, or whose fields are all skipped.
pub open spec fn empty_like(v: Variant) -> bool {
    forall|i: int| 0 <= i < v.fields@.len() ==> #[trigger] v.fields@[i].skip
}

/// The structural shape of a declared type.
#[derive(Debug)]
pub enum Shape {
    /// A record type with its fields in declaration order.
    Struct { fields: Vec<FieldDescriptor> },
    /// A sum type with its variants in declaration order, and the location of
    /// the variant list.
    Enum { variants: Vec<Variant>, location: Location },
    /// A union of overlapping fields, with the location of its declaration.
    Union { location: Location },
}

} // verus!
