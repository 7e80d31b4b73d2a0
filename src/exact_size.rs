//! The size analysis: per field, per struct, per enum, and per declared type.
use vstd::prelude::*;
use crate::shape::{
    conflicting, empty_like, modifier_of, ErrorKind, FieldDescriptor, FieldModifier, Location,
    Shape, StructuralError, Variant,
};

verus! {

/// An optional machine size read as an optional mathematical size.
pub open spec fn opt_int(o: Option<u64>) -> Option<int> {
    match o {
        Some(n) => Some(n as int),
        None => None,
    }
}

/// The exact size that a field contributes, given its modifier.
pub open spec fn field_size(f: FieldDescriptor) -> Option<int> {
    match modifier_of(f) {
        FieldModifier::Skip => Some(0),
        FieldModifier::Compact => opt_int(f.ty.compact_size),
        FieldModifier::EncodedAs(alt) => opt_int(alt.size),
        FieldModifier::Plain => opt_int(f.ty.size),
    }
}

/// The exact size of a sequence of fields: the sum of their sizes, or `None`
/// as soon as one of them has no fixed size.
pub open spec fn fields_size(s: Seq<FieldDescriptor>) -> Option<int>
    decreases s.len(),
{
    if s.len() == 0 {
        Some(0)
    } else {
        match (fields_size(s.drop_last()), field_size(s.last())) {
            (Some(t), Some(p)) => Some(t + p),
            _ => None,
        }
    }
}

/// The error reported for a field with conflicting modifiers.
pub open spec fn conflict_error(f: FieldDescriptor) -> StructuralError {
    StructuralError { kind: ErrorKind::ConflictingFieldModifiers, location: f.location }
}

/// One error per field with conflicting modifiers, in declaration order.
pub open spec fn field_errors(s: Seq<FieldDescriptor>) -> Seq<StructuralError>
    decreases s.len(),
{
    if s.len() == 0 {
        Seq::empty()
    } else if conflicting(s.last()) {
        field_errors(s.drop_last()).push(conflict_error(s.last()))
    } else {
        field_errors(s.drop_last())
    }
}

/// Some field of the sequence carries conflicting modifiers.
pub open spec fn has_conflict(s: Seq<FieldDescriptor>) -> bool {
    exists|i: int| 0 <= i < s.len() && #[trigger] conflicting(s[i])
}

/// The size of a well-formed sequence of fields fits in a `u64`.
pub open spec fn size_fits(s: Seq<FieldDescriptor>) -> bool {
    !has_conflict(s) ==> (fields_size(s) matches Some(n) ==> n <= u64::MAX)
}

/// The result of the analysis of a struct with these fields.
pub open spec fn struct_result(s: Seq<FieldDescriptor>) -> Result<Option<int>, Seq<StructuralError>> {
    if has_conflict(s) {
        Err(field_errors(s))
    } else {
        Ok(fields_size(s))
    }
}

/// A machine result read as a mathematical one.
pub open spec fn result_view(r: Result<Option<u64>, Vec<StructuralError>>) -> Result<Option<int>, Seq<StructuralError>> {
    match r {
        Ok(o) => Ok(opt_int(o)),
        Err(es) => Err(es@),
    }
}

/// The fields yield no conflict errors exactly when none of them conflicts.
pub proof fn lemma_field_errors_empty(s: Seq<FieldDescriptor>)
    ensures
        field_errors(s).len() == 0 <==> !has_conflict(s),
    decreases s.len(),
{
    if s.len() > 0 {
        lemma_field_errors_empty(s.drop_last());
        if has_conflict(s.drop_last()) {
            let i = choose|i: int| 0 <= i < s.drop_last().len() && #[trigger] conflicting(s.drop_last()[i]);
            assert(conflicting(s[i]));
        }
        if has_conflict(s) && !conflicting(s.last()) {
            let i = choose|i: int| 0 <= i < s.len() && #[trigger] conflicting(s[i]);
            assert(conflicting(s.drop_last()[i]));
        }
        if conflicting(s.last()) {
            assert(conflicting(s[s.len() - 1]));
        }
    }
}

/// Once a prefix of the fields has no fixed size, no longer prefix has one;
/// otherwise the size only grows with the prefix.
pub proof fn lemma_prefix_size_monotone(s: Seq<FieldDescriptor>, j: int, k: int)
    requires
        0 <= j <= k <= s.len(),
    ensures
        fields_size(s.take(j)) is None ==> fields_size(s.take(k)) is None,
        fields_size(s.take(j)) is Some && fields_size(s.take(k)) is Some ==> fields_size(s.take(j)).unwrap()
            <= fields_size(s.take(k)).unwrap(),
    decreases k - j,
{
    if j < k {
        lemma_prefix_size_monotone(s, j, k - 1);
        assert(s.take(k).drop_last() =~= s.take(k - 1));
        assert(s.take(k).last() == s[k - 1]);
        if let Some(p) = field_size(s[k - 1]) {
            assert(p >= 0);
        }
    }
}

/// The exact size contributed by one field, or `ConflictingFieldModifiers`
/// when the field carries more than one modifier. A skipped field
/// contributes nothing whatever its type.
pub fn exact_size_field(field: &FieldDescriptor) -> (r: Result<Option<u64>, StructuralError>)
    ensures
        conflicting(*field) <==> r.is_err(),
        r matches Err(e) ==> e == conflict_error(*field),
        r matches Ok(o) ==> opt_int(o) == field_size(*field),
        field.skip && !conflicting(*field) ==> r == Ok::<Option<u64>, StructuralError>(Some(0u64)),
{
    match field.modifier() {
        Err(e) => Err(e),
        Ok(FieldModifier::Compact) => Ok(field.ty.compact_size),
        Ok(FieldModifier::EncodedAs(alt)) => Ok(alt.size),
        Ok(FieldModifier::Skip) => Ok(Some(0)),
        Ok(FieldModifier::Plain) => Ok(field.ty.size),
    }
}

/// The exact size of a struct with these fields, in declaration order: the sum
/// of the fields' sizes, `None` when one of them has no fixed size, and `Some(0)`
/// for no fields. Every field is checked for conflicting modifiers, and each
/// conflict is reported, before any size is added up.
pub fn exact_size_fields(fields: &Vec<FieldDescriptor>) -> (r: Result<Option<u64>, Vec<StructuralError>>)
    requires
        size_fits(fields@),
    ensures
        result_view(r) == struct_result(fields@),
{
    let mut errors: Vec<StructuralError> = Vec::new();
    let mut i: usize = 0;
    while i < fields.len()
        invariant
            i <= fields.len(),
            errors@ == field_errors(fields@.take(i as int)),
        decreases fields.len() - i,
    {
        assert(fields@.take(i + 1).drop_last() =~= fields@.take(i as int));
        assert(fields@.take(i + 1).last() == fields@[i as int]);
        match exact_size_field(&fields[i]) {
            Err(e) => errors.push(e),
            Ok(_) => {},
        }
        i = i + 1;
    }
    assert(fields@.take(fields.len() as int) =~= fields@);
    proof {
        lemma_field_errors_empty(fields@);
    }
    if errors.len() > 0 {
        return Err(errors);
    }
    let mut total: u64 = 0;
    let mut j: usize = 0;
    while j < fields.len()
        invariant
            j <= fields.len(),
            !has_conflict(fields@),
            size_fits(fields@),
            fields_size(fields@.take(j as int)) == Some(total as int),
        decreases fields.len() - j,
    {
        assert(fields@.take(j + 1).drop_last() =~= fields@.take(j as int));
        assert(fields@.take(j + 1).last() == fields@[j as int]);
        assert(!conflicting(fields@[j as int]));
        let part = match exact_size_field(&fields[j]) {
            Ok(o) => o,
            Err(_) => None,
        };
        match part {
            None => {
                proof {
                    lemma_prefix_size_monotone(fields@, j + 1, fields@.len() as int);
                    assert(fields@.take(fields@.len() as int) =~= fields@);
                }
                return Ok(None);
            },
            Some(p) => {
                match total.checked_add(p) {
                    Some(t) => {
                        total = t;
                    },
                    None => {
                        proof {
                            lemma_prefix_size_monotone(fields@, j + 1, fields@.len() as int);
                            assert(fields@.take(fields@.len() as int) =~= fields@);
                            assert(fields_size(fields@.take(j + 1)) == Some(total + p));
                        }
                        return Ok(None);
                    },
                }
            },
        }
        j = j + 1;
    }
    assert(fields@.take(fields@.len() as int) =~= fields@);
    Ok(Some(total))
}

/// The number of variants that are not skipped.
pub open spec fn counted_variants(vs: Seq<Variant>) -> int
    decreases vs.len(),
{
    if vs.len() == 0 {
        0
    } else {
        counted_variants(vs.drop_last()) + if vs.last().skipped { 0int } else { 1int }
    }
}

/// Every variant that is not skipped is empty-like.
pub open spec fn all_counted_empty_like(vs: Seq<Variant>) -> bool {
    forall|i: int| 0 <= i < vs.len() && !vs[i].skipped ==> #[trigger] empty_like(vs[i])
}

/// The exact size of an enum with these variants: one discriminant byte when
/// some variant counts and every counted one is empty-like, else no fixed size.
pub open spec fn enum_size(vs: Seq<Variant>) -> Option<int> {
    if counted_variants(vs) != 0 && all_counted_empty_like(vs) {
        Some(1)
    } else {
        None
    }
}

/// The most variants that a one-byte discriminant can tell apart.
pub const MAX_VARIANTS: usize = 256;

/// The error reported for an enum with more counted variants than a
/// discriminant byte can tell apart.
pub open spec fn too_many_variants_error(location: Location) -> StructuralError {
    StructuralError { kind: ErrorKind::TooManyVariants, location }
}

proof fn lemma_counted_bounds(vs: Seq<Variant>)
    ensures
        0 <= counted_variants(vs) <= vs.len(),
    decreases vs.len(),
{
    if vs.len() > 0 {
        lemma_counted_bounds(vs.drop_last());
    }
}

/// Whether every field of a variant is skipped.
fn variant_is_empty_like(v: &Variant) -> (r: bool)
    ensures
        r == empty_like(*v),
{
    let mut i: usize = 0;
    while i < v.fields.len()
        invariant
            i <= v.fields.len(),
            forall|k: int| 0 <= k < i ==> #[trigger] v.fields@[k].skip,
        decreases v.fields.len() - i,
    {
        if !v.fields[i].skip {
            return false;
        }
        i = i + 1;
    }
    true
}

/// The exact size of an enum with these variants, whose variant list stands at
/// `location`: `TooManyVariants` when more than 256 variants are counted
/// (skipped variants are not), `Some(1)` when at least one is counted and all
/// counted variants are empty-like, and `None` otherwise.
pub fn compose_enum(variants: &Vec<Variant>, location: Location) -> (r: Result<Option<u64>, StructuralError>)
    ensures
        r.is_err() <==> counted_variants(variants@) > 256,
        r matches Err(e) ==> e == too_many_variants_error(location),
        r matches Ok(o) ==> opt_int(o) == enum_size(variants@),
{
    let mut count: usize = 0;
    let mut all_empty: bool = true;
    let mut i: usize = 0;
    while i < variants.len()
        invariant
            i <= variants.len(),
            count as int == counted_variants(variants@.take(i as int)),
            all_empty == all_counted_empty_like(variants@.take(i as int)),
        decreases variants.len() - i,
    {
        proof {
            lemma_counted_bounds(variants@.take(i as int));
        }
        let ghost pre = variants@.take(i as int);
        let ghost next = variants@.take(i + 1);
        assert(next.drop_last() =~= pre);
        assert(next.last() == variants@[i as int]);
        let v = &variants[i];
        if !v.skipped {
            count = count + 1;
            if all_empty && !variant_is_empty_like(v) {
                all_empty = false;
            }
        }
        assert(all_empty == all_counted_empty_like(next)) by {
            if all_counted_empty_like(next) {
                assert forall|k: int| 0 <= k < pre.len() && !pre[k].skipped implies #[trigger] empty_like(pre[k]) by {
                    assert(next[k] == pre[k]);
                }
                if !v.skipped {
                    assert(empty_like(next[i as int]));
                }
            }
        }
        i = i + 1;
    }
    assert(variants@.take(variants.len() as int) =~= variants@);
    if count > MAX_VARIANTS {
        Err(StructuralError { kind: ErrorKind::TooManyVariants, location })
    } else if count != 0 && all_empty {
        Ok(Some(1))
    } else {
        Ok(None)
    }
}

/// The error reported for a union.
pub open spec fn unsupported_shape_error(location: Location) -> StructuralError {
    StructuralError { kind: ErrorKind::UnsupportedShape, location }
}

/// The inputs on which the analysis can state its result in a `u64`.
pub open spec fn shape_fits(shape: Shape) -> bool {
    match shape {
        Shape::Struct { fields } => size_fits(fields@),
        _ => true,
    }
}

/// The result of the analysis of a declared type: a size that every value of
/// the type encodes to, `None` when there is none, or the structural errors
/// that reject the type.
pub open spec fn shape_result(shape: Shape) -> Result<Option<int>, Seq<StructuralError>> {
    match shape {
        Shape::Struct { fields } => struct_result(fields@),
        Shape::Enum { variants, location } => if counted_variants(variants@) > 256 {
            Err(seq![too_many_variants_error(location)])
        } else {
            Ok(enum_size(variants@))
        },
        Shape::Union { location } => Err(seq![unsupported_shape_error(location)]),
    }
}

/// Decides whether every value of a declared type encodes to the same number
/// of bytes: `Ok(Some(n))` gives that number, `Ok(None)` says that there is
/// none, and `Err` lists the structural errors that reject the type.
pub fn quote(shape: &Shape) -> (r: Result<Option<u64>, Vec<StructuralError>>)
    requires
        shape_fits(*shape),
    ensures
        result_view(r) == shape_result(*shape),
{
    match shape {
        Shape::Struct { fields } => exact_size_fields(fields),
        Shape::Enum { variants, location } => match compose_enum(variants, *location) {
            Ok(o) => Ok(o),
            Err(e) => {
                let errors = vec![e];
                assert(errors@ =~= seq![too_many_variants_error(*location)]);
                Err(errors)
            },
        },
        Shape::Union { location } => {
            let errors = vec![StructuralError { kind: ErrorKind::UnsupportedShape, location: *location }];
            assert(errors@ =~= seq![unsupported_shape_error(*location)]);
            Err(errors)
        },
    }
}

} // verus!
