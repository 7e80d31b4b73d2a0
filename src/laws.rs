//! Properties of the size analysis that hold over all shapes.
use vstd::prelude::*;
use crate::shape::{
    conflicting, empty_like, FieldDescriptor, Location, Shape, StructuralError, Variant,
};
use crate::exact_size::{
    all_counted_empty_like, conflict_error, field_errors, lemma_field_errors_empty, struct_result, counted_variants, enum_size, field_size, fields_size,
    lemma_prefix_size_monotone, result_view, shape_result, too_many_variants_error,
};

verus! {

/// Two optional sizes added up: unknown as soon as one of them is.
pub open spec fn add_sizes(x: Option<int>, y: Option<int>) -> Option<int> {
    match (x, y) {
        (Some(a), Some(b)) => Some(a + b),
        _ => None,
    }
}

/// The fields of a struct laid one after the other: the size of the whole is
/// the sum of the sizes of the two parts, and unknown when either part's is.
pub proof fn lemma_fields_size_concat(a: Seq<FieldDescriptor>, b: Seq<FieldDescriptor>)
    ensures
        fields_size(a + b) == add_sizes(fields_size(a), fields_size(b)),
    decreases b.len(),
{
    if b.len() == 0 {
        assert(a + b =~= a);
    } else {
        lemma_fields_size_concat(a, b.drop_last());
        assert((a + b).drop_last() =~= a + b.drop_last());
        assert((a + b).last() == b.last());
    }
}

/// The size of a struct does not depend on the order of its fields: two
/// groups of fields in either order have the same total.
pub proof fn lemma_fields_size_order_independent(a: Seq<FieldDescriptor>, b: Seq<FieldDescriptor>)
    ensures
        fields_size(a + b) == fields_size(b + a),
{
    lemma_fields_size_concat(a, b);
    lemma_fields_size_concat(b, a);
}

proof fn lemma_fields_size_single(f: FieldDescriptor)
    ensures
        fields_size(seq![f]) == field_size(f),
{
    assert(seq![f].drop_last() =~= Seq::<FieldDescriptor>::empty());
    assert(seq![f].last() == f);
    assert(fields_size(Seq::<FieldDescriptor>::empty()) == Some(0int));
}

/// The size of a struct does not depend on the order of its fields: any
/// reordering of the same fields has the same total.
pub proof fn lemma_fields_size_permutation(s: Seq<FieldDescriptor>, t: Seq<FieldDescriptor>)
    requires
        s.to_multiset() == t.to_multiset(),
    ensures
        fields_size(s) == fields_size(t),
    decreases s.len(),
{
    broadcast use vstd::seq_lib::group_to_multiset_ensures;

    if s.len() == 0 {
        assert(t.to_multiset().len() == 0);
        assert(t =~= s);
    } else {
        let x = s.last();
        let rest = s.drop_last();
        assert(rest.push(x) =~= s);
        assert(s.to_multiset() =~= rest.to_multiset().insert(x));
        assert(t.to_multiset().count(x) > 0);
        assert(t.contains(x));
        let i = choose|i: int| 0 <= i < t.len() && t[i] == x;
        let u = t.remove(i);
        assert(u.to_multiset() =~= t.to_multiset().remove(x));
        assert(u.to_multiset() =~= rest.to_multiset());
        lemma_fields_size_permutation(rest, u);
        let front = t.take(i);
        let back = t.skip(i + 1);
        assert(u =~= front + back);
        assert(t =~= front + seq![x] + back);
        lemma_fields_size_single(x);
        lemma_fields_size_concat(front, back);
        lemma_fields_size_concat(front, seq![x]);
        lemma_fields_size_concat(front + seq![x], back);
    }
}

/// A struct with a field whose own size is unknown has no fixed size,
/// whatever the sizes of its other fields.
pub proof fn lemma_unknown_field_makes_struct_unknown(s: Seq<FieldDescriptor>, i: int)
    requires
        0 <= i < s.len(),
        field_size(s[i]) is None,
    ensures
        fields_size(s) is None,
{
    assert(s.take(i + 1).drop_last() =~= s.take(i));
    assert(s.take(i + 1).last() == s[i]);
    lemma_prefix_size_monotone(s, i + 1, s.len() as int);
    assert(s.take(s.len() as int) =~= s);
}

/// A skipped field adds nothing to the size of a struct, even where its
/// declared type has no fixed size.
pub proof fn lemma_skipped_field_adds_nothing(
    a: Seq<FieldDescriptor>,
    f: FieldDescriptor,
    b: Seq<FieldDescriptor>,
)
    requires
        f.skip,
        !conflicting(f),
    ensures
        fields_size(a + seq![f] + b) == fields_size(a + b),
{
    assert(seq![f].drop_last() =~= Seq::<FieldDescriptor>::empty());
    assert(!f.compact && f.encoded_as.is_none());
    assert(field_size(f) == Some(0int));
    assert(fields_size(Seq::<FieldDescriptor>::empty()) == Some(0int));
    assert(seq![f].last() == f);
    assert(fields_size(seq![f]) == Some(0int));
    lemma_fields_size_concat(a, seq![f]);
    lemma_fields_size_concat(a + seq![f], b);
    lemma_fields_size_concat(a, b);
}

/// A struct with a field that carries more than one modifier is rejected, and
/// the errors name that field's location.
pub proof fn lemma_conflicting_field_rejects_struct(s: Seq<FieldDescriptor>, i: int)
    requires
        0 <= i < s.len(),
        conflicting(s[i]),
    ensures
        struct_result(s) is Err,
        field_errors(s).contains(conflict_error(s[i])),
    decreases s.len(),
{
    assert(s.last() == s[s.len() - 1]);
    if i == s.len() - 1 {
        assert(field_errors(s).last() == conflict_error(s[i]));
    } else {
        assert(s.drop_last()[i] == s[i]);
        lemma_conflicting_field_rejects_struct(s.drop_last(), i);
        let k = choose|k: int| 0 <= k < field_errors(s.drop_last()).len()
            && field_errors(s.drop_last())[k] == conflict_error(s[i]);
        assert(field_errors(s)[k] == conflict_error(s[i]));
    }
}

/// The conflict errors of fields laid one after the other are those of the
/// first part followed by those of the second.
pub proof fn lemma_field_errors_concat(a: Seq<FieldDescriptor>, b: Seq<FieldDescriptor>)
    ensures
        field_errors(a + b) == field_errors(a) + field_errors(b),
    decreases b.len(),
{
    if b.len() == 0 {
        assert(a + b =~= a);
        assert(field_errors(a) + field_errors(b) =~= field_errors(a));
    } else {
        lemma_field_errors_concat(a, b.drop_last());
        assert((a + b).drop_last() =~= a + b.drop_last());
        assert((a + b).last() == b.last());
        if conflicting(b.last()) {
            assert(field_errors(a) + field_errors(b) =~= (field_errors(a) + field_errors(b.drop_last())).push(
                conflict_error(b.last()),
            ));
        }
    }
}

/// Inserting a skipped field with no other modifier anywhere among a struct's
/// fields changes neither its size nor its errors.
pub proof fn lemma_skipped_field_keeps_struct_result(
    a: Seq<FieldDescriptor>,
    f: FieldDescriptor,
    b: Seq<FieldDescriptor>,
)
    requires
        f.skip,
        !conflicting(f),
    ensures
        struct_result(a + seq![f] + b) == struct_result(a + b),
{
    lemma_skipped_field_adds_nothing(a, f, b);
    assert(seq![f].drop_last() =~= Seq::<FieldDescriptor>::empty());
    assert(seq![f].last() == f);
    assert(field_errors(Seq::<FieldDescriptor>::empty()) =~= Seq::<StructuralError>::empty());
    assert(field_errors(seq![f]) == field_errors(seq![f].drop_last()));
    assert(field_errors(seq![f]) =~= Seq::<StructuralError>::empty());
    lemma_field_errors_concat(a, seq![f]);
    lemma_field_errors_concat(a + seq![f], b);
    lemma_field_errors_concat(a, b);
    assert(field_errors(a) + field_errors(seq![f]) =~= field_errors(a));
    lemma_field_errors_empty(a + seq![f] + b);
    lemma_field_errors_empty(a + b);
}

proof fn lemma_counted_all(vs: Seq<Variant>)
    requires
        forall|i: int| 0 <= i < vs.len() ==> !(#[trigger] vs[i]).skipped,
    ensures
        counted_variants(vs) == vs.len(),
    decreases vs.len(),
{
    if vs.len() > 0 {
        assert(!vs[vs.len() - 1].skipped);
        lemma_counted_all(vs.drop_last());
    }
}

/// An enum without variants has no fixed size.
pub proof fn lemma_empty_enum_unknown(variants: Vec<Variant>, location: Location)
    requires
        variants@.len() == 0,
    ensures
        shape_result(Shape::Enum { variants, location }) == Ok::<Option<int>, Seq<StructuralError>>(None),
{
}

/// An enum of between 1 and 256 unit variants, none of them skipped, always
/// encodes to its one discriminant byte.
pub proof fn lemma_unit_enum_one_byte(variants: Vec<Variant>, location: Location)
    requires
        1 <= variants@.len() <= 256,
        forall|i: int| 0 <= i < variants@.len() ==> (#[trigger] variants@[i]).fields@.len() == 0
            && !variants@[i].skipped,
    ensures
        shape_result(Shape::Enum { variants, location }) == Ok::<Option<int>, Seq<StructuralError>>(Some(1)),
{
    lemma_counted_all(variants@);
    assert forall|i: int| 0 <= i < variants@.len() && !variants@[i].skipped implies #[trigger] empty_like(variants@[i]) by {
        assert(variants@[i].fields@.len() == 0);
    }
}

/// An enum whose counted variants are all unit-like or carry only skipped
/// fields encodes to one byte, provided at least one and at most 256
/// variants are counted.
pub proof fn lemma_empty_like_enum_one_byte(variants: Vec<Variant>, location: Location)
    requires
        1 <= counted_variants(variants@) <= 256,
        all_counted_empty_like(variants@),
    ensures
        shape_result(Shape::Enum { variants, location }) == Ok::<Option<int>, Seq<StructuralError>>(Some(1)),
{
}

/// An enum with a counted variant that carries a field that is not skipped has
/// no fixed size, even where that field's own size is zero.
pub proof fn lemma_enum_with_payload_unknown(variants: Vec<Variant>, location: Location, i: int, j: int)
    requires
        counted_variants(variants@) <= 256,
        0 <= i < variants@.len(),
        !variants@[i].skipped,
        0 <= j < variants@[i].fields@.len(),
        !variants@[i].fields@[j].skip,
    ensures
        shape_result(Shape::Enum { variants, location }) == Ok::<Option<int>, Seq<StructuralError>>(None),
{
    assert(!empty_like(variants@[i]));
    assert(!all_counted_empty_like(variants@));
}

/// An enum that counts more than 256 variants is rejected with
/// `TooManyVariants` at its variant list.
pub proof fn lemma_too_many_variants(variants: Vec<Variant>, location: Location)
    requires
        counted_variants(variants@) > 256,
    ensures
        shape_result(Shape::Enum { variants, location }) == Err::<Option<int>, Seq<StructuralError>>(
            seq![too_many_variants_error(location)],
        ),
{
}

/// The analysis is a function of the shape alone: analysing the same shape
/// twice gives the same size, or the same errors at the same locations.
/// `r1` and `r2` stand for two results of `quote`, whose contract ties each
/// result to `shape_result` of its shape.
pub proof fn lemma_analysis_deterministic(
    a: Shape,
    b: Shape,
    r1: Result<Option<u64>, Vec<StructuralError>>,
    r2: Result<Option<u64>, Vec<StructuralError>>,
)
    requires
        a == b,
        result_view(r1) == shape_result(a),
        result_view(r2) == shape_result(b),
    ensures
        shape_result(a) == shape_result(b),
        result_view(r1) == result_view(r2),
{
}

} // verus!
