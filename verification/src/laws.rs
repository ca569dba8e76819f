//! What holds of every definition and of every instance.

use vstd::prelude::*;
use crate::annotations::ignored;
use crate::derive::{flatten, write_outcome, written};
use crate::errors::Error;
use crate::instance::{adapted, FieldValue, FieldValueView};
use crate::reflect::{
    built, described, descriptors, entry_value, field_name, filtered_context, joined,
    materialized, namespace, scheme_fields, value_views, written_in_turn, FieldDescriptorView,
};
use crate::scheme::{declared, fields_well_formed, lemma_position_unique};
use crate::syntax::{DeriveInput, Field};
use crate::types::{LhsValueView, Type};

verus! {

/// Whether `path` is the path of one of `fields`.
pub open spec fn declares(fields: Seq<(Seq<char>, Type)>, path: Seq<char>) -> bool {
    exists|i: int| 0 <= i < fields.len() && (#[trigger] fields[i]).0 == path
}

/// Whether `path` is the path of a field of `fields` that is not ignored, in
/// a structure with the namespace `outer`.
pub open spec fn kept_path(outer: Option<Seq<char>>, fields: Seq<Field>, path: Seq<char>) -> bool {
    exists|j: int|
        0 <= j < fields.len() && !ignored((#[trigger] fields[j]).attrs@) && joined(
            outer,
            field_name(fields[j]),
        ) == path
}

/// Whether `path` is the path of a descriptor of `ds` that is not ignored.
pub open spec fn kept_descriptor(ds: Seq<FieldDescriptorView>, path: Seq<char>) -> bool {
    exists|j: int| 0 <= j < ds.len() && (#[trigger] ds[j]).ty is Some && ds[j].path == path
}

/// Where every field has a descriptor, there is one descriptor for each
/// field, at the field's place.
pub proof fn lemma_descriptors_pointwise(outer: Option<Seq<char>>, fields: Seq<Field>)
    requires
        descriptors(outer, fields) is Ok,
    ensures
        descriptors(outer, fields).unwrap().len() == fields.len(),
        forall|j: int|
            0 <= j < fields.len() ==> described(outer, #[trigger] fields[j]) == Ok::<
                FieldDescriptorView,
                Error,
            >(descriptors(outer, fields).unwrap()[j]),
    decreases fields.len(),
{
    if fields.len() > 0 {
        lemma_descriptors_pointwise(outer, fields.drop_last());
        let before = descriptors(outer, fields.drop_last()).unwrap();
        let ds = descriptors(outer, fields).unwrap();
        assert forall|j: int| 0 <= j < fields.len() implies described(outer, #[trigger] fields[j])
            == Ok::<FieldDescriptorView, Error>(ds[j]) by {
            if j < fields.len() - 1 {
                assert(fields.drop_last()[j] == fields[j]);
                assert(ds[j] == before[j]);
            }
        }
    }
}

/// The paths of the fields that descriptors stand for are the paths of the
/// descriptors that are not ignored.
pub proof fn lemma_built_paths(ds: Seq<FieldDescriptorView>, path: Seq<char>)
    ensures
        declares(built(ds), path) <==> kept_descriptor(ds, path),
    decreases ds.len(),
{
    if ds.len() > 0 {
        let front = ds.drop_last();
        lemma_built_paths(front, path);
        let last = ds.last();
        if declares(built(ds), path) {
            let i = choose|i: int| 0 <= i < built(ds).len() && (#[trigger] built(ds)[i]).0 == path;
            if last.ty is Some && i == built(front).len() {
                assert(ds[ds.len() - 1].ty is Some && ds[ds.len() - 1].path == path);
            } else {
                assert(built(front)[i].0 == path);
                let j = choose|j: int|
                    0 <= j < front.len() && (#[trigger] front[j]).ty is Some && front[j].path
                        == path;
                assert(ds[j].ty is Some && ds[j].path == path);
            }
        }
        if kept_descriptor(ds, path) {
            let j = choose|j: int|
                0 <= j < ds.len() && (#[trigger] ds[j]).ty is Some && ds[j].path == path;
            if j == ds.len() - 1 {
                assert(built(ds)[built(front).len() as int].0 == path);
            } else {
                assert(front[j].ty is Some && front[j].path == path);
                let i = choose|i: int|
                    0 <= i < built(front).len() && (#[trigger] built(front)[i]).0 == path;
                assert(built(ds)[i].0 == path);
            }
        }
    }
}

/// The paths of a structure's scheme are the paths of its fields that are
/// not ignored: no other path stands in the scheme, and none of those is
/// missing.
pub proof fn lemma_scheme_paths(input: DeriveInput, path: Seq<char>)
    requires
        scheme_fields(input) is Ok,
    ensures
        declares(scheme_fields(input).unwrap(), path) <==> kept_path(
            namespace(input.attrs@).unwrap(),
            input.fields@,
            path,
        ),
{
    let outer = namespace(input.attrs@).unwrap();
    let fields = input.fields@;
    let ds = descriptors(outer, fields).unwrap();
    lemma_descriptors_pointwise(outer, fields);
    lemma_built_paths(ds, path);
    if kept_descriptor(ds, path) {
        let j = choose|j: int|
            0 <= j < ds.len() && (#[trigger] ds[j]).ty is Some && ds[j].path == path;
        assert(described(outer, fields[j]) == Ok::<FieldDescriptorView, Error>(ds[j]));
        assert(!ignored(fields[j].attrs@) && joined(outer, field_name(fields[j])) == path);
    }
    if kept_path(outer, fields, path) {
        let j = choose|j: int|
            0 <= j < fields.len() && !ignored((#[trigger] fields[j]).attrs@) && joined(
                outer,
                field_name(fields[j]),
            ) == path;
        assert(described(outer, fields[j]) == Ok::<FieldDescriptorView, Error>(ds[j]));
        assert(ds[j].ty is Some && ds[j].path == path);
    }
}

/// A value that may be absent writes nothing where it is absent, and where
/// it is present what the value itself writes.
pub proof fn lemma_optional(inner: FieldValueView)
    ensures
        adapted(FieldValueView::Optional(None)) is None,
        adapted(FieldValueView::Optional(Some(Box::new(inner)))) == adapted(inner),
{
}

/// Writing an absent value leaves a context as it was, and is no error.
/// Writing a present one that the context accepts adds the one entry that the
/// value itself writes, at the field's path.
pub proof fn lemma_optional_written(
    fields: Seq<(Seq<char>, Type)>,
    held: Map<Seq<char>, LhsValueView>,
    name: Seq<char>,
    inner: FieldValueView,
)
    ensures
        write_outcome(fields, name, adapted(FieldValueView::Optional(None))) is Ok,
        written(held, name, adapted(FieldValueView::Optional(None)), Ok(())) == held,
        write_outcome(fields, name, adapted(FieldValueView::Optional(Some(Box::new(inner)))))
            == write_outcome(fields, name, adapted(inner)),
        adapted(inner) matches Some(value) ==> written(
            held,
            name,
            adapted(FieldValueView::Optional(Some(Box::new(inner)))),
            Ok(()),
        ) == held.insert(name, value),
{
}

/// The text of a list of pairs is empty only where the list is.
pub proof fn lemma_flatten_empty(pairs: Seq<(Seq<char>, Seq<char>)>)
    ensures
        flatten(pairs).len() == 0 <==> pairs.len() == 0,
{
}

/// A list of pairs writes nothing where it is empty, and otherwise one text:
/// for each pair in order its key, `:`, its value and a line feed.
pub proof fn lemma_pairs(pairs: Seq<(Seq<char>, Seq<char>)>)
    ensures
        pairs.len() == 0 ==> adapted(FieldValueView::Pairs(pairs)) is None,
        pairs.len() > 0 ==> adapted(FieldValueView::Pairs(pairs)) == Some(
            LhsValueView::Bytes(flatten(pairs)),
        ),
        pairs.len() > 0 ==> flatten(pairs) == flatten(pairs.drop_last()) + pairs.last().0
            + seq![':'] + pairs.last().1 + seq!['\n'],
{
    lemma_flatten_empty(pairs);
}

/// Two instances of one structure whose fields hold equal values fill a
/// context alike: the same entries, or the same error.
pub proof fn lemma_equal_instances(
    input: DeriveInput,
    a: Seq<FieldValue>,
    b: Seq<FieldValue>,
    fields: Seq<(Seq<char>, Type)>,
)
    requires
        a.len() == b.len(),
        forall|i: int| 0 <= i < a.len() ==> a[i]@ == b[i]@,
    ensures
        filtered_context(input, value_views(a), fields) == filtered_context(
            input,
            value_views(b),
            fields,
        ),
{
    assert(value_views(a) == value_views(b));
}

/// Writing values in turn adds entries only at the paths of descriptors that
/// are not ignored.
pub proof fn lemma_turn_paths(
    fields: Seq<(Seq<char>, Type)>,
    held: Map<Seq<char>, LhsValueView>,
    values: Seq<FieldValueView>,
    ds: Seq<FieldDescriptorView>,
    path: Seq<char>,
)
    requires
        written_in_turn(fields, held, values, ds).0.contains_key(path),
    ensures
        held.contains_key(path) || kept_descriptor(ds, path),
    decreases ds.len(),
{
    if ds.len() > 0 && values.len() > 0 {
        let value = entry_value(values[0], ds[0]);
        let outcome = write_outcome(fields, ds[0].path, value);
        if outcome is Ok {
            let next = written(held, ds[0].path, value, outcome);
            lemma_turn_paths(fields, next, values.drop_first(), ds.drop_first(), path);
            if next.contains_key(path) {
                if !held.contains_key(path) {
                    assert(ds[0].ty is Some && ds[0].path == path);
                }
            } else {
                let rest = ds.drop_first();
                let j = choose|j: int|
                    0 <= j < rest.len() && (#[trigger] rest[j]).ty is Some && rest[j].path == path;
                assert(ds[j + 1].ty is Some && ds[j + 1].path == path);
            }
        }
    }
}

/// Writing values in turn removes no entry.
pub proof fn lemma_turn_keeps(
    fields: Seq<(Seq<char>, Type)>,
    held: Map<Seq<char>, LhsValueView>,
    values: Seq<FieldValueView>,
    ds: Seq<FieldDescriptorView>,
    path: Seq<char>,
)
    requires
        held.contains_key(path),
    ensures
        written_in_turn(fields, held, values, ds).0.contains_key(path),
    decreases ds.len(),
{
    if ds.len() > 0 && values.len() > 0 {
        let value = entry_value(values[0], ds[0]);
        let outcome = write_outcome(fields, ds[0].path, value);
        if outcome is Ok {
            let next = written(held, ds[0].path, value, outcome);
            lemma_turn_keeps(fields, next, values.drop_first(), ds.drop_first(), path);
        }
    }
}

/// Whatever the values, a context gains entries only at the paths of fields
/// that are not ignored.
pub proof fn lemma_context_paths(
    fields: Seq<(Seq<char>, Type)>,
    held: Map<Seq<char>, LhsValueView>,
    values: Seq<FieldValueView>,
    ds: Seq<FieldDescriptorView>,
    path: Seq<char>,
)
    requires
        materialized(fields, held, values, ds).0.contains_key(path),
    ensures
        held.contains_key(path) || kept_descriptor(ds, path),
{
    if values.len() == ds.len() {
        lemma_turn_paths(fields, held, values, ds, path);
    }
}

/// What a context held before an instance was written into it, it holds
/// after, also where a value was refused.
pub proof fn lemma_materialized_keeps(
    fields: Seq<(Seq<char>, Type)>,
    held: Map<Seq<char>, LhsValueView>,
    values: Seq<FieldValueView>,
    ds: Seq<FieldDescriptorView>,
    path: Seq<char>,
)
    requires
        held.contains_key(path),
    ensures
        materialized(fields, held, values, ds).0.contains_key(path),
{
    if values.len() == ds.len() {
        lemma_turn_keeps(fields, held, values, ds, path);
    }
}

/// A structure has descriptors exactly where each of its fields has one.
pub proof fn lemma_descriptors_exist(outer: Option<Seq<char>>, fields: Seq<Field>)
    ensures
        descriptors(outer, fields) is Ok <==> forall|j: int|
            0 <= j < fields.len() ==> described(outer, #[trigger] fields[j]) is Ok,
    decreases fields.len(),
{
    if fields.len() > 0 {
        let front = fields.drop_last();
        lemma_descriptors_exist(outer, front);
        if descriptors(outer, fields) is Ok {
            lemma_descriptors_pointwise(outer, fields);
        }
        if forall|j: int| 0 <= j < fields.len() ==> described(outer, #[trigger] fields[j]) is Ok {
            assert forall|j: int| 0 <= j < front.len() implies described(
                outer,
                #[trigger] front[j],
            ) is Ok by {
                assert(front[j] == fields[j]);
            }
            assert(described(outer, fields[fields.len() - 1]) is Ok);
        }
    }
}

/// Each value that a field writes has the semantic type of the field.
pub open spec fn typed_as_declared(
    values: Seq<FieldValueView>,
    ds: Seq<FieldDescriptorView>,
) -> bool {
    forall|j: int|
        0 <= j < ds.len() && j < values.len() ==> (entry_value(values[j], #[trigger] ds[j])
            matches Some(value) ==> ds[j].ty == Some(value.get_type()))
}

/// In the fields that descriptors stand for, where no path stands twice, the
/// path of each descriptor that is not ignored has the descriptor's type.
pub proof fn lemma_built_declares(ds: Seq<FieldDescriptorView>, j: int)
    requires
        fields_well_formed(built(ds)),
        0 <= j < ds.len(),
        ds[j].ty is Some,
    ensures
        declared(built(ds)).contains_key(ds[j].path),
        declared(built(ds))[ds[j].path] == ds[j].ty.unwrap(),
{
    lemma_built_holds(ds, j);
    let i = choose|i: int|
        0 <= i < built(ds).len() && #[trigger] built(ds)[i] == (ds[j].path, ds[j].ty.unwrap());
    lemma_position_unique(built(ds), i);
}

/// The fields that descriptors stand for hold the path and type of each
/// descriptor that is not ignored.
pub proof fn lemma_built_holds(ds: Seq<FieldDescriptorView>, j: int)
    requires
        0 <= j < ds.len(),
        ds[j].ty is Some,
    ensures
        exists|i: int|
            0 <= i < built(ds).len() && #[trigger] built(ds)[i] == (ds[j].path, ds[j].ty.unwrap()),
    decreases ds.len(),
{
    let front = ds.drop_last();
    if j == ds.len() - 1 {
        assert(built(ds)[built(front).len() as int] == (ds[j].path, ds[j].ty.unwrap()));
    } else {
        lemma_built_holds(front, j);
        let i = choose|i: int|
            0 <= i < built(front).len() && #[trigger] built(front)[i] == (
                front[j].path,
                front[j].ty.unwrap(),
            );
        assert(built(ds)[i] == (ds[j].path, ds[j].ty.unwrap()));
    }
}

/// A context accepts every value that is offered at a declared path with the
/// declared type: writing such values field by field ends without error.
pub proof fn lemma_turn_ok(
    fields: Seq<(Seq<char>, Type)>,
    held: Map<Seq<char>, LhsValueView>,
    values: Seq<FieldValueView>,
    ds: Seq<FieldDescriptorView>,
)
    requires
        typed_as_declared(values, ds),
        forall|j: int|
            0 <= j < ds.len() && (#[trigger] ds[j]).ty is Some ==> declared(fields).contains_key(
                ds[j].path,
            ) && declared(fields)[ds[j].path] == ds[j].ty.unwrap(),
    ensures
        written_in_turn(fields, held, values, ds).1 is Ok,
    decreases ds.len(),
{
    if ds.len() > 0 && values.len() > 0 {
        let value = entry_value(values[0], ds[0]);
        let outcome = write_outcome(fields, ds[0].path, value);
        assert(ds[0].ty is Some ==> declared(fields).contains_key(ds[0].path));
        assert(outcome is Ok);
        let rest = ds.drop_first();
        let later = values.drop_first();
        assert forall|j: int| 0 <= j < rest.len() && j < later.len() implies (entry_value(
            later[j],
            #[trigger] rest[j],
        ) matches Some(v) ==> rest[j].ty == Some(v.get_type())) by {
            assert(rest[j] == ds[j + 1]);
            assert(later[j] == values[j + 1]);
        }
        assert forall|j: int| 0 <= j < rest.len() && (#[trigger] rest[j]).ty is Some implies declared(
            fields,
        ).contains_key(rest[j].path) && declared(fields)[rest[j].path] == rest[j].ty.unwrap() by {
            assert(rest[j] == ds[j + 1]);
        }
        lemma_turn_ok(fields, written(held, ds[0].path, value, outcome), later, rest);
    }
}

/// The scheme of a structure accepts the structure's instances: where no
/// path of the scheme stands twice, there is one value for each field and
/// each value has the semantic type of its field, a context for that scheme
/// is filled without error.
pub proof fn lemma_own_scheme_accepts(input: DeriveInput, values: Seq<FieldValueView>)
    requires
        scheme_fields(input) is Ok,
        fields_well_formed(scheme_fields(input).unwrap()),
        values.len() == input.fields.len(),
        typed_as_declared(
            values,
            descriptors(namespace(input.attrs@).unwrap(), input.fields@).unwrap(),
        ),
    ensures
        filtered_context(input, values, scheme_fields(input).unwrap()) is Ok,
{
    let ds = descriptors(namespace(input.attrs@).unwrap(), input.fields@).unwrap();
    assert forall|j: int| 0 <= j < ds.len() && (#[trigger] ds[j]).ty is Some implies declared(
        built(ds),
    ).contains_key(ds[j].path) && declared(built(ds))[ds[j].path] == ds[j].ty.unwrap() by {
        lemma_built_declares(ds, j);
    }
    lemma_descriptors_pointwise(namespace(input.attrs@).unwrap(), input.fields@);
    lemma_turn_ok(built(ds), Map::empty(), values, ds);
}

} // verus!
