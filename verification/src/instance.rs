//! The values of one instance of a structure, field by field.

use vstd::prelude::*;
use crate::derive::{flattened_value, pair_views, to_i64, Filterable, GenContext};
use crate::errors::Error;
use crate::execution_context::ExecutionContext;
use crate::reflect::{filtered_context, make_filterable, value_views};
use crate::scheme::Scheme;
use crate::syntax::DeriveInput;
use crate::types::{IpAddr, LhsValueView, Type};

verus! {

/// The value of one field, by the type that the field is declared with.
#[derive(Debug)]
pub enum FieldValue {
    /// Text.
    Text(String),
    /// A signed 8-bit integer.
    I8(i8),
    /// A signed 16-bit integer.
    I16(i16),
    /// A signed 32-bit integer.
    I32(i32),
    /// A signed 64-bit integer.
    I64(i64),
    /// A signed 128-bit integer.
    I128(i128),
    /// A signed integer of the machine's word size.
    Isize(isize),
    /// An unsigned 8-bit integer.
    U8(u8),
    /// An unsigned 16-bit integer.
    U16(u16),
    /// An unsigned 32-bit integer.
    U32(u32),
    /// An unsigned 64-bit integer.
    U64(u64),
    /// An unsigned 128-bit integer.
    U128(u128),
    /// An unsigned integer of the machine's word size.
    Usize(usize),
    /// A network address.
    Ip(IpAddr),
    /// A value that may be absent.
    Optional(Option<Box<FieldValue>>),
    /// Keys with their values, in order.
    Pairs(Vec<(String, String)>),
}

/// What a [`FieldValue`] holds, with text as sequences of characters.
pub enum FieldValueView {
    Text(Seq<char>),
    I8(i8),
    I16(i16),
    I32(i32),
    I64(i64),
    I128(i128),
    Isize(isize),
    U8(u8),
    U16(u16),
    U32(u32),
    U64(u64),
    U128(u128),
    Usize(usize),
    Ip(IpAddr),
    Optional(Option<Box<FieldValueView>>),
    Pairs(Seq<(Seq<char>, Seq<char>)>),
}

impl View for FieldValue {
    type V = FieldValueView;

    open spec fn view(&self) -> FieldValueView
        decreases self,
    {
        match self {
            FieldValue::Text(s) => FieldValueView::Text(s@),
            FieldValue::I8(v) => FieldValueView::I8(*v),
            FieldValue::I16(v) => FieldValueView::I16(*v),
            FieldValue::I32(v) => FieldValueView::I32(*v),
            FieldValue::I64(v) => FieldValueView::I64(*v),
            FieldValue::I128(v) => FieldValueView::I128(*v),
            FieldValue::Isize(v) => FieldValueView::Isize(*v),
            FieldValue::U8(v) => FieldValueView::U8(*v),
            FieldValue::U16(v) => FieldValueView::U16(*v),
            FieldValue::U32(v) => FieldValueView::U32(*v),
            FieldValue::U64(v) => FieldValueView::U64(*v),
            FieldValue::U128(v) => FieldValueView::U128(*v),
            FieldValue::Usize(v) => FieldValueView::Usize(*v),
            FieldValue::Ip(a) => FieldValueView::Ip(*a),
            FieldValue::Optional(Some(inner)) => FieldValueView::Optional(
                Some(Box::new((**inner).view())),
            ),
            FieldValue::Optional(None) => FieldValueView::Optional(None),
            FieldValue::Pairs(pairs) => FieldValueView::Pairs(pair_views(pairs@)),
        }
    }
}

/// What a field's value writes into a context: text and addresses as they
/// are, integers as the 64-bit integers that stand for them, a value that may be absent as the value
/// itself does or nothing, and pairs as their text unless it is empty.
pub open spec fn adapted(value: FieldValueView) -> Option<LhsValueView>
    decreases value,
{
    match value {
        FieldValueView::Text(s) => Some(LhsValueView::Bytes(s)),
        FieldValueView::I8(v) => Some(LhsValueView::Int(to_i64(v as int))),
        FieldValueView::I16(v) => Some(LhsValueView::Int(to_i64(v as int))),
        FieldValueView::I32(v) => Some(LhsValueView::Int(to_i64(v as int))),
        FieldValueView::I64(v) => Some(LhsValueView::Int(to_i64(v as int))),
        FieldValueView::I128(v) => Some(LhsValueView::Int(to_i64(v as int))),
        FieldValueView::Isize(v) => Some(LhsValueView::Int(to_i64(v as int))),
        FieldValueView::U8(v) => Some(LhsValueView::Int(to_i64(v as int))),
        FieldValueView::U16(v) => Some(LhsValueView::Int(to_i64(v as int))),
        FieldValueView::U32(v) => Some(LhsValueView::Int(to_i64(v as int))),
        FieldValueView::U64(v) => Some(LhsValueView::Int(to_i64(v as int))),
        FieldValueView::U128(v) => Some(LhsValueView::Int(to_i64(v as int))),
        FieldValueView::Usize(v) => Some(LhsValueView::Int(to_i64(v as int))),
        FieldValueView::Ip(a) => Some(LhsValueView::Ip(a)),
        FieldValueView::Optional(Some(inner)) => adapted(*inner),
        FieldValueView::Optional(None) => None,
        FieldValueView::Pairs(pairs) => flattened_value(pairs),
    }
}

impl GenContext for FieldValue {
    open spec fn lhs_value(&self) -> Option<LhsValueView> {
        adapted(self@)
    }

    fn generate_context<'s>(&self, ctx: &mut ExecutionContext<'s>, field_name: &str) -> (r: Result<
        (),
        Error,
    >)
        decreases self,
    {
        match self {
            FieldValue::Text(s) => s.generate_context(ctx, field_name),
            FieldValue::I8(v) => v.generate_context(ctx, field_name),
            FieldValue::I16(v) => v.generate_context(ctx, field_name),
            FieldValue::I32(v) => v.generate_context(ctx, field_name),
            FieldValue::I64(v) => v.generate_context(ctx, field_name),
            FieldValue::I128(v) => v.generate_context(ctx, field_name),
            FieldValue::Isize(v) => v.generate_context(ctx, field_name),
            FieldValue::U8(v) => v.generate_context(ctx, field_name),
            FieldValue::U16(v) => v.generate_context(ctx, field_name),
            FieldValue::U32(v) => v.generate_context(ctx, field_name),
            FieldValue::U64(v) => v.generate_context(ctx, field_name),
            FieldValue::U128(v) => v.generate_context(ctx, field_name),
            FieldValue::Usize(v) => v.generate_context(ctx, field_name),
            FieldValue::Ip(a) => a.generate_context(ctx, field_name),
            FieldValue::Optional(Some(inner)) => inner.generate_context(ctx, field_name),
            FieldValue::Optional(None) => Ok(()),
            FieldValue::Pairs(pairs) => pairs.generate_context(ctx, field_name),
        }
    }
}

/// One instance of a structure: its definition, and a value for each of its
/// fields in the order of declaration. What stands for an ignored field is
/// never read.
#[derive(Debug)]
pub struct Instance<'d> {
    pub definition: &'d DeriveInput,
    pub values: Vec<FieldValue>,
}

impl<'d> Filterable for Instance<'d> {
    open spec fn filtered(&self, fields: Seq<(Seq<char>, Type)>) -> Result<
        Map<Seq<char>, LhsValueView>,
        Error,
    > {
        filtered_context(*self.definition, value_views(self.values@), fields)
    }

    fn filter_context<'s>(&self, schema: &'s Scheme) -> (r: Result<ExecutionContext<'s>, Error>) {
        make_filterable(self.definition, &self.values, schema)
    }
}

} // verus!
