//! From the definition of a structure to its field descriptors, and from
//! those to the fields of a scheme and to the entries of a context.

use vstd::prelude::*;
use vstd::string::*;
use crate::annotations::{ignore, ignored, malformed, renamed, renamed_field};
use crate::derive::{write_outcome, written, GenContext};
use crate::errors::Error;
use crate::execution_context::ExecutionContext;
use crate::instance::{adapted, FieldValue, FieldValueView};
use crate::resolver::{resolve, resolved};
use crate::scheme::{field_views, Scheme};
use crate::syntax::{Attribute, DeriveInput, Field};
use crate::types::{LhsValueView, Type};

verus! {

/// What the reflection keeps of one field: the path under which it is known
/// and its semantic type. An ignored field has no semantic type.
#[derive(Debug)]
pub struct FieldDescriptor {
    pub path: String,
    pub ty: Option<Type>,
}

/// What a [`FieldDescriptor`] holds, with the path as a sequence of
/// characters.
pub struct FieldDescriptorView {
    pub path: Seq<char>,
    pub ty: Option<Type>,
}

impl View for FieldDescriptor {
    type V = FieldDescriptorView;

    open spec fn view(&self) -> FieldDescriptorView {
        FieldDescriptorView { path: self.path@, ty: self.ty }
    }
}

impl FieldDescriptor {
    /// Whether the field stays out of schemes and contexts.
    pub fn ignore(&self) -> (r: bool)
        ensures
            r == (self@.ty is None),
    {
        self.ty.is_none()
    }
}

/// The descriptors of a list, each by its view.
pub open spec fn descriptor_views(descriptors: Seq<FieldDescriptor>) -> Seq<FieldDescriptorView> {
    Seq::new(descriptors.len(), |i: int| descriptors[i]@)
}

/// The values of a list, each by its view.
pub open spec fn value_views(values: Seq<FieldValue>) -> Seq<FieldValueView> {
    Seq::new(values.len(), |i: int| values[i]@)
}

/// A name, as a sequence of characters, where there is one.
pub open spec fn name_view(name: Option<String>) -> Option<Seq<char>> {
    match name {
        Some(text) => Some(text@),
        None => None,
    }
}

/// The path of a field called `name` in a structure with the namespace
/// `outer`: the two joined by `.`, or the name alone.
pub open spec fn joined(outer: Option<Seq<char>>, name: Seq<char>) -> Seq<char> {
    match outer {
        Some(namespace) => namespace + seq!['.'] + name,
        None => name,
    }
}

/// The name by which a field is known: the one that its annotations give, or
/// else the one it is declared with.
pub open spec fn field_name(field: Field) -> Seq<char> {
    match renamed(field.attrs@) {
        Some(name) => name,
        None => field.ident@,
    }
}

/// The descriptor of one field of a structure with the namespace `outer`, or
/// why it has none.
pub open spec fn described(outer: Option<Seq<char>>, field: Field) -> Result<
    FieldDescriptorView,
    Error,
> {
    if malformed(field.attrs@) {
        Err(Error::MalformedAnnotation)
    } else if ignored(field.attrs@) {
        Ok(FieldDescriptorView { path: joined(outer, field_name(field)), ty: None })
    } else {
        match resolved(field.ty) {
            Some(ty) => Ok(
                FieldDescriptorView { path: joined(outer, field_name(field)), ty: Some(ty) },
            ),
            None => Err(Error::UnsupportedType),
        }
    }
}

/// The descriptors of the fields of a structure with the namespace `outer`,
/// in their order, or the error of the first field that has none.
pub open spec fn descriptors(outer: Option<Seq<char>>, fields: Seq<Field>) -> Result<
    Seq<FieldDescriptorView>,
    Error,
>
    decreases fields.len(),
{
    if fields.len() == 0 {
        Ok(Seq::empty())
    } else {
        match descriptors(outer, fields.drop_last()) {
            Err(e) => Err(e),
            Ok(before) => match described(outer, fields.last()) {
                Ok(d) => Ok(before.push(d)),
                Err(e) => Err(e),
            },
        }
    }
}

/// The fields of the scheme that the descriptors stand for: the path and
/// type of each that is not ignored, in their order.
pub open spec fn built(descriptors: Seq<FieldDescriptorView>) -> Seq<(Seq<char>, Type)>
    decreases descriptors.len(),
{
    if descriptors.len() == 0 {
        Seq::empty()
    } else {
        let before = built(descriptors.drop_last());
        match descriptors.last().ty {
            Some(ty) => before.push((descriptors.last().path, ty)),
            None => before,
        }
    }
}

/// What the field with the descriptor `descriptor` writes when it holds
/// `value`: nothing where it is ignored.
pub open spec fn entry_value(value: FieldValueView, descriptor: FieldDescriptorView) -> Option<
    LhsValueView,
> {
    if descriptor.ty is None {
        None
    } else {
        adapted(value)
    }
}

/// What a context with the fields `fields` that holds `held` holds after the
/// values were written field by field, each at the path of the descriptor at
/// its place, and how that ended. The first value that the context refuses
/// ends it: what was written before stays, and nothing after it is written.
pub open spec fn written_in_turn(
    fields: Seq<(Seq<char>, Type)>,
    held: Map<Seq<char>, LhsValueView>,
    values: Seq<FieldValueView>,
    descriptors: Seq<FieldDescriptorView>,
) -> (Map<Seq<char>, LhsValueView>, Result<(), Error>)
    decreases descriptors.len(),
{
    if descriptors.len() == 0 || values.len() == 0 {
        (held, Ok(()))
    } else {
        let value = entry_value(values[0], descriptors[0]);
        let outcome = write_outcome(fields, descriptors[0].path, value);
        if outcome is Err {
            (held, outcome)
        } else {
            written_in_turn(
                fields,
                written(held, descriptors[0].path, value, outcome),
                values.drop_first(),
                descriptors.drop_first(),
            )
        }
    }
}

/// What a context with the fields `fields` that holds `held` holds after an
/// instance with the values `values` was written into it, and how that
/// ended. Where there is not one value for each descriptor, nothing is
/// written and that is the error; otherwise the values are written in turn.
pub open spec fn materialized(
    fields: Seq<(Seq<char>, Type)>,
    held: Map<Seq<char>, LhsValueView>,
    values: Seq<FieldValueView>,
    descriptors: Seq<FieldDescriptorView>,
) -> (Map<Seq<char>, LhsValueView>, Result<(), Error>) {
    if values.len() != descriptors.len() {
        (held, Err(Error::ValueCountMismatch))
    } else {
        written_in_turn(fields, held, values, descriptors)
    }
}

/// The namespace that the annotations of a structure give, or the error.
pub open spec fn namespace(attrs: Seq<Attribute>) -> Result<Option<Seq<char>>, Error> {
    if malformed(attrs) {
        Err(Error::MalformedAnnotation)
    } else {
        Ok(renamed(attrs))
    }
}

/// The fields of the scheme of a structure, or why it has none.
pub open spec fn scheme_fields(input: DeriveInput) -> Result<Seq<(Seq<char>, Type)>, Error> {
    match namespace(input.attrs@) {
        Err(e) => Err(e),
        Ok(outer) => match descriptors(outer, input.fields@) {
            Err(e) => Err(e),
            Ok(ds) => Ok(built(ds)),
        },
    }
}

/// What a fresh context for a scheme with the fields `fields` holds after an
/// instance of the structure with the values `values` was written into it, or
/// the error.
pub open spec fn filtered_context(
    input: DeriveInput,
    values: Seq<FieldValueView>,
    fields: Seq<(Seq<char>, Type)>,
) -> Result<Map<Seq<char>, LhsValueView>, Error> {
    match namespace(input.attrs@) {
        Err(e) => Err(e),
        Ok(outer) => match descriptors(outer, input.fields@) {
            Err(e) => Err(e),
            Ok(ds) => {
                let end = materialized(fields, Map::empty(), values, ds);
                match end.1 {
                    Ok(_) => Ok(end.0),
                    Err(e) => Err(e),
                }
            },
        },
    }
}

/// An error among the first fields of a structure is the error of the whole.
pub proof fn lemma_error_persists(outer: Option<Seq<char>>, fields: Seq<Field>, k: int)
    requires
        0 <= k <= fields.len(),
        descriptors(outer, fields.take(k)) is Err,
    ensures
        descriptors(outer, fields) == descriptors(outer, fields.take(k)),
    decreases fields.len(),
{
    if k == fields.len() {
        assert(fields.take(k) == fields);
    } else {
        assert(fields.drop_last().take(k) == fields.take(k));
        lemma_error_persists(outer, fields.drop_last(), k);
    }
}

/// The path of a field called `name` in a structure with the namespace
/// `outer_name`.
pub fn join_path(outer_name: &Option<String>, name: &str) -> (path: String)
    ensures
        path@ == joined(name_view(*outer_name), name@),
{
    match outer_name {
        Some(namespace) => {
            proof {
                reveal_strlit(".");
                assert("."@ == seq!['.']);
            }
            let mut path = namespace.clone();
            path.append(".");
            path.append(name);
            path
        },
        None => name.to_owned(),
    }
}

/// The descriptor of one field of a structure with the namespace
/// `outer_name`.
pub fn describe_field(field: &Field, outer_name: &Option<String>) -> (r: Result<
    FieldDescriptor,
    Error,
>)
    ensures
        match r {
            Ok(d) => described(name_view(*outer_name), *field) == Ok::<FieldDescriptorView, Error>(
                d@,
            ),
            Err(e) => described(name_view(*outer_name), *field) == Err::<FieldDescriptorView, Error>(
                e,
            ),
        },
{
    let skip = match ignore(&field.attrs) {
        Ok(b) => b,
        Err(e) => {
            return Err(e);
        },
    };
    let defined_name = match renamed_field(&field.attrs) {
        Ok(Some(name)) => name,
        Ok(None) => field.ident.clone(),
        Err(e) => {
            return Err(e);
        },
    };
    let path = join_path(outer_name, defined_name.as_str());
    if skip {
        Ok(FieldDescriptor { path, ty: None })
    } else {
        match resolve(&field.ty) {
            Ok(ty) => Ok(FieldDescriptor { path, ty: Some(ty) }),
            Err(e) => Err(e),
        }
    }
}

/// The descriptors of the fields of a structure with the namespace
/// `outer_name`, one for each field in the order of declaration. The first
/// field with a malformed annotation or, unless it is ignored, with an
/// unsupported type decides the error.
pub fn describe(fields: &Vec<Field>, outer_name: &Option<String>) -> (r: Result<
    Vec<FieldDescriptor>,
    Error,
>)
    ensures
        match r {
            Ok(ds) => descriptors(name_view(*outer_name), fields@) == Ok::<
                Seq<FieldDescriptorView>,
                Error,
            >(descriptor_views(ds@)),
            Err(e) => descriptors(name_view(*outer_name), fields@) == Err::<
                Seq<FieldDescriptorView>,
                Error,
            >(e),
        },
{
    let ghost outer = name_view(*outer_name);
    let mut out: Vec<FieldDescriptor> = Vec::new();
    let mut i: usize = 0;
    assert(fields@.take(0) == Seq::<Field>::empty());
    assert(descriptor_views(out@) == Seq::<FieldDescriptorView>::empty());
    while i < fields.len()
        invariant
            i <= fields.len(),
            outer == name_view(*outer_name),
            descriptors(outer, fields@.take(i as int)) == Ok::<Seq<FieldDescriptorView>, Error>(
                descriptor_views(out@),
            ),
        decreases fields.len() - i,
    {
        proof {
            assert(fields@.take(i + 1).drop_last() == fields@.take(i as int));
            assert(fields@.take(i + 1).last() == fields@[i as int]);
        }
        match describe_field(&fields[i], outer_name) {
            Ok(d) => {
                let ghost before = descriptor_views(out@);
                out.push(d);
                assert(descriptor_views(out@) == before.push(d@));
            },
            Err(e) => {
                proof {
                    lemma_error_persists(outer, fields@, i + 1);
                }
                return Err(e);
            },
        }
        i = i + 1;
    }
    assert(fields@.take(i as int) == fields@);
    Ok(out)
}

/// The fields of the scheme that the descriptors stand for: the path and
/// type of each that is not ignored, in their order.
pub fn build(descriptors: &Vec<FieldDescriptor>) -> (fields: Vec<(String, Type)>)
    ensures
        field_views(fields@) == built(descriptor_views(descriptors@)),
{
    let ghost ds = descriptor_views(descriptors@);
    let mut fields: Vec<(String, Type)> = Vec::new();
    let mut i: usize = 0;
    assert(ds.take(0) == Seq::<FieldDescriptorView>::empty());
    assert(field_views(fields@) == Seq::<(Seq<char>, Type)>::empty());
    while i < descriptors.len()
        invariant
            i <= descriptors.len(),
            ds == descriptor_views(descriptors@),
            field_views(fields@) == built(ds.take(i as int)),
        decreases descriptors.len() - i,
    {
        proof {
            assert(ds.take(i + 1).drop_last() == ds.take(i as int));
            assert(ds.take(i + 1).last() == ds[i as int]);
        }
        match descriptors[i].ty {
            Some(ty) => {
                let ghost before = field_views(fields@);
                fields.push((descriptors[i].path.clone(), ty));
                assert(field_views(fields@) == before.push((ds[i as int].path, ty)));
            },
            None => {},
        }
        i = i + 1;
    }
    assert(ds.take(i as int) == ds);
    fields
}

/// Writes the values of an instance into `ctx`, field by field: for each
/// field that is not ignored what its value writes, at the field's path. The
/// first value that the context refuses ends it with the context's error:
/// what was written before stays, and nothing after it is written. An
/// instance that has not one value for each descriptor is an error, and
/// nothing of it is written.
pub fn materialize<'s>(
    instance: &Vec<FieldValue>,
    descriptors: &Vec<FieldDescriptor>,
    ctx: &mut ExecutionContext<'s>,
) -> (r: Result<(), Error>)
    requires
        old(ctx).wf(),
    ensures
        final(ctx).wf(),
        final(ctx).fields() == old(ctx).fields(),
        (final(ctx)@, r) == materialized(
            old(ctx).fields(),
            old(ctx)@,
            value_views(instance@),
            descriptor_views(descriptors@),
        ),
{
    let ghost fields = ctx.fields();
    let ghost start = ctx@;
    let ghost values = value_views(instance@);
    let ghost ds = descriptor_views(descriptors@);
    if instance.len() != descriptors.len() {
        return Err(Error::ValueCountMismatch);
    }
    let mut i: usize = 0;
    assert(values.skip(0) == values);
    assert(ds.skip(0) == ds);
    while i < descriptors.len()
        invariant
            i <= descriptors.len(),
            instance.len() == descriptors.len(),
            values == value_views(instance@),
            ds == descriptor_views(descriptors@),
            ctx.wf(),
            ctx.fields() == fields,
            fields == old(ctx).fields(),
            start == old(ctx)@,
            materialized(fields, start, values, ds) == written_in_turn(
                fields,
                ctx@,
                values.skip(i as int),
                ds.skip(i as int),
            ),
        decreases descriptors.len() - i,
    {
        proof {
            assert(values.skip(i as int)[0] == values[i as int]);
            assert(ds.skip(i as int)[0] == ds[i as int]);
            assert(values.skip(i as int).drop_first() == values.skip(i + 1));
            assert(ds.skip(i as int).drop_first() == ds.skip(i + 1));
        }
        if !descriptors[i].ignore() {
            match instance[i].generate_context(ctx, descriptors[i].path.as_str()) {
                Ok(()) => {},
                Err(e) => {
                    return Err(e);
                },
            }
        }
        i = i + 1;
    }
    Ok(())
}

/// The fields of the scheme of a structure with the namespace `outer_name`
/// and the fields `fields`.
pub fn iter_members_has_fields(fields: &Vec<Field>, outer_name: &Option<String>) -> (r: Result<
    Vec<(String, Type)>,
    Error,
>)
    ensures
        match r {
            Ok(out) => descriptors(name_view(*outer_name), fields@) matches Ok(ds) && field_views(
                out@,
            ) == built(ds),
            Err(e) => descriptors(name_view(*outer_name), fields@) == Err::<
                Seq<FieldDescriptorView>,
                Error,
            >(e),
        },
{
    match describe(fields, outer_name) {
        Ok(ds) => Ok(build(&ds)),
        Err(e) => Err(e),
    }
}

/// Writes an instance of a structure with the namespace `outer_name` and the
/// fields `fields` into `ctx`. Where a field has no descriptor, or the
/// instance has not one value for each field, nothing is written.
pub fn iter_members_filterable<'s>(
    fields: &Vec<Field>,
    outer_name: &Option<String>,
    instance: &Vec<FieldValue>,
    ctx: &mut ExecutionContext<'s>,
) -> (r: Result<(), Error>)
    requires
        old(ctx).wf(),
    ensures
        final(ctx).wf(),
        final(ctx).fields() == old(ctx).fields(),
        match descriptors(name_view(*outer_name), fields@) {
            Ok(ds) => (final(ctx)@, r) == materialized(
                old(ctx).fields(),
                old(ctx)@,
                value_views(instance@),
                ds,
            ),
            Err(e) => final(ctx)@ == old(ctx)@ && r == Err::<(), Error>(e),
        },
{
    match describe(fields, outer_name) {
        Ok(ds) => materialize(instance, &ds, ctx),
        Err(e) => Err(e),
    }
}

/// The fields of the scheme of a structure: the path and type of each field
/// that is not ignored, in the order of declaration.
pub fn make_has_fields(input: &DeriveInput) -> (r: Result<Vec<(String, Type)>, Error>)
    ensures
        match r {
            Ok(out) => scheme_fields(*input) == Ok::<Seq<(Seq<char>, Type)>, Error>(
                field_views(out@),
            ),
            Err(e) => scheme_fields(*input) == Err::<Seq<(Seq<char>, Type)>, Error>(e),
        },
{
    match renamed_field(&input.attrs) {
        Ok(outer_name) => iter_members_has_fields(&input.fields, &outer_name),
        Err(e) => Err(e),
    }
}

/// A fresh context for `schema`, filled from an instance of a structure.
pub fn make_filterable<'s>(
    input: &DeriveInput,
    instance: &Vec<FieldValue>,
    schema: &'s Scheme,
) -> (r: Result<ExecutionContext<'s>, Error>)
    ensures
        match r {
            Ok(ctx) => ctx.wf() && ctx.fields() == schema@ && filtered_context(
                *input,
                value_views(instance@),
                schema@,
            ) == Ok::<Map<Seq<char>, LhsValueView>, Error>(ctx@),
            Err(e) => filtered_context(*input, value_views(instance@), schema@) == Err::<
                Map<Seq<char>, LhsValueView>,
                Error,
            >(e),
        },
{
    let outer_name = match renamed_field(&input.attrs) {
        Ok(name) => name,
        Err(e) => {
            return Err(e);
        },
    };
    let mut ctx = ExecutionContext::new(schema);
    match iter_members_filterable(&input.fields, &outer_name, instance, &mut ctx) {
        Ok(()) => Ok(ctx),
        Err(e) => Err(e),
    }
}

} // verus!
