//! The traits by which a value tells its type and writes itself into a
//! context, and their impls for the types of field that are supported.

use vstd::prelude::*;
use vstd::string::*;
use crate::errors::Error;
use crate::execution_context::{set_outcome, ExecutionContext};
use crate::scheme::Scheme;
use crate::types::{IpAddr, LhsValue, LhsValueView, Type};

verus! {

/// What a context with the fields `fields` answers when `value` is written at
/// `name`; nothing is offered where `value` is `None`.
pub open spec fn write_outcome(
    fields: Seq<(Seq<char>, Type)>,
    name: Seq<char>,
    value: Option<LhsValueView>,
) -> Result<(), Error> {
    match value {
        Some(v) => set_outcome(fields, name, v),
        None => Ok(()),
    }
}

/// What a context that held `before` holds after `value` was written at
/// `name` with the answer `outcome`.
pub open spec fn written(
    before: Map<Seq<char>, LhsValueView>,
    name: Seq<char>,
    value: Option<LhsValueView>,
    outcome: Result<(), Error>,
) -> Map<Seq<char>, LhsValueView> {
    match value {
        Some(v) if outcome is Ok => before.insert(name, v),
        _ => before,
    }
}

/// A structure that can fill a context for a scheme from its fields.
pub trait Filterable {
    /// What `filter_context` returns for a scheme with the fields `fields`:
    /// what the context holds, or the error.
    spec fn filtered(&self, fields: Seq<(Seq<char>, Type)>) -> Result<
        Map<Seq<char>, LhsValueView>,
        Error,
    >;

    /// A fresh context for `schema`, filled from the fields of `self`.
    fn filter_context<'s>(&self, schema: &'s Scheme) -> (r: Result<ExecutionContext<'s>, Error>)
        ensures
            match r {
                Ok(ctx) => ctx.wf() && ctx.fields() == schema@ && self.filtered(schema@) == Ok::<
                    Map<Seq<char>, LhsValueView>,
                    Error,
                >(ctx@),
                Err(e) => self.filtered(schema@) == Err::<Map<Seq<char>, LhsValueView>, Error>(e),
            },
    ;
}

/// A value of a field that can write itself into a context.
pub trait GenContext {
    /// What the value writes: `None` where it writes nothing.
    spec fn lhs_value(&self) -> Option<LhsValueView>;

    /// Writes the value into `ctx` at `field_name`. Where the context refuses
    /// it, the context stays as it was and its error is returned.
    fn generate_context<'s>(&self, ctx: &mut ExecutionContext<'s>, field_name: &str) -> (r: Result<
        (),
        Error,
    >)
        requires
            old(ctx).wf(),
        ensures
            final(ctx).wf(),
            final(ctx).fields() == old(ctx).fields(),
            r == write_outcome(old(ctx).fields(), field_name@, self.lhs_value()),
            final(ctx)@ == written(old(ctx)@, field_name@, self.lhs_value(), r),
    ;
}

/// A structure that can list the fields of the scheme it fills.
pub trait HasFields {
    /// What `fields` returns.
    spec fn spec_fields() -> Seq<(Seq<char>, Type)>;

    /// The path and type of each field that is not ignored, in the order of
    /// declaration.
    fn fields() -> (r: Vec<(String, Type)>)
        ensures
            crate::scheme::field_views(r@) == Self::spec_fields(),
    ;
}

/// A type of field that has a type in schemes.
pub trait GetType {
    /// What `ty` returns.
    spec fn spec_ty() -> Type;

    /// The type that a scheme declares for a field of this type.
    fn ty() -> (r: Type)
        ensures
            r == Self::spec_ty(),
    ;
}

/// The 64-bit integer that stands for the integer `v`: `v` itself where it
/// lies between `i64::MIN` and `i64::MAX`, and otherwise the one integer in
/// that range that differs from `v` by a multiple of 2^64, as a cast to `i64`
/// gives it.
pub open spec fn to_i64(v: int) -> i64 {
    let low = v % 0x1_0000_0000_0000_0000;
    if low <= i64::MAX {
        low as i64
    } else {
        (low - 0x1_0000_0000_0000_0000) as i64
    }
}

/// An integer that a 64-bit integer can hold stands for itself.
pub proof fn lemma_to_i64_keeps(v: int)
    requires
        i64::MIN <= v <= i64::MAX,
    ensures
        to_i64(v) == v,
{
    if v < 0 {
        assert(v % 0x1_0000_0000_0000_0000 == v + 0x1_0000_0000_0000_0000);
    } else {
        assert(v % 0x1_0000_0000_0000_0000 == v);
    }
}

/// The 64-bit integer that stands for an unsigned one.
pub fn wrap_u64(v: u64) -> (r: i64)
    ensures
        r == to_i64(v as int),
{
    assert(v as int % 0x1_0000_0000_0000_0000 == v as int);
    if v <= 0x7fff_ffff_ffff_ffff {
        v as i64
    } else {
        (v - 0x8000_0000_0000_0000) as i64 + i64::MIN
    }
}

/// The 64-bit integer that stands for an unsigned 128-bit one.
pub fn wrap_u128(v: u128) -> (r: i64)
    ensures
        r == to_i64(v as int),
{
    let low: u64 = (v % 0x1_0000_0000_0000_0000) as u64;
    wrap_u64(low)
}

/// The 64-bit integer that stands for a signed 128-bit one.
pub fn wrap_i128(v: i128) -> (r: i64)
    ensures
        r == to_i64(v as int),
{
    if v >= 0 {
        wrap_u128(v as u128)
    } else {
        let below: u128 = (-(v + 1)) as u128;
        let rest: u64 = (below % 0x1_0000_0000_0000_0000) as u64;
        let low: u64 = 0xffff_ffff_ffff_ffff - rest;
        assert(v as int % 0x1_0000_0000_0000_0000 == low as int);
        wrap_u64(low)
    }
}

/// The text of `pairs`: for each pair in order its key, `:`, its value and a
/// line feed.
pub open spec fn flatten(pairs: Seq<(Seq<char>, Seq<char>)>) -> Seq<char>
    decreases pairs.len(),
{
    if pairs.len() == 0 {
        Seq::empty()
    } else {
        flatten(pairs.drop_last()) + pairs.last().0 + seq![':'] + pairs.last().1 + seq!['\n']
    }
}

/// The pairs of a list, each text as a sequence of characters.
pub open spec fn pair_views(pairs: Seq<(String, String)>) -> Seq<(Seq<char>, Seq<char>)> {
    Seq::new(pairs.len(), |i: int| (pairs[i].0@, pairs[i].1@))
}

/// What a list of pairs writes: nothing where its text is empty, and its
/// text otherwise.
pub open spec fn flattened_value(pairs: Seq<(Seq<char>, Seq<char>)>) -> Option<LhsValueView> {
    if flatten(pairs).len() == 0 {
        None
    } else {
        Some(LhsValueView::Bytes(flatten(pairs)))
    }
}

/// The text of a list of pairs.
pub fn flatten_pairs(pairs: &Vec<(String, String)>) -> (text: String)
    ensures
        text@ == flatten(pair_views(pairs@)),
{
    let ghost views = pair_views(pairs@);
    let mut text = String::new();
    let mut i: usize = 0;
    while i < pairs.len()
        invariant
            i <= pairs.len(),
            views == pair_views(pairs@),
            text@ == flatten(views.take(i as int)),
        decreases pairs.len() - i,
    {
        proof {
            reveal_strlit(":");
            reveal_strlit("\n");
            assert(views.take(i + 1).drop_last() == views.take(i as int));
            assert(":"@ == seq![':']);
            assert("\n"@ == seq!['\n']);
        }
        text.append(pairs[i].0.as_str());
        text.append(":");
        text.append(pairs[i].1.as_str());
        text.append("\n");
        i = i + 1;
    }
    assert(views.take(i as int) == views);
    text
}

impl GenContext for String {
    open spec fn lhs_value(&self) -> Option<LhsValueView> {
        Some(LhsValueView::Bytes(self@))
    }

    fn generate_context<'s>(&self, ctx: &mut ExecutionContext<'s>, field_name: &str) -> (r: Result<
        (),
        Error,
    >) {
        ctx.set_field_value(field_name, LhsValue::Bytes(self.clone()))
    }
}

impl GenContext for i8 {
    open spec fn lhs_value(&self) -> Option<LhsValueView> {
        Some(LhsValueView::Int(to_i64(*self as int)))
    }

    fn generate_context<'s>(&self, ctx: &mut ExecutionContext<'s>, field_name: &str) -> (r: Result<
        (),
        Error,
    >) {
        proof {
            lemma_to_i64_keeps(*self as int);
        }
        ctx.set_field_value(field_name, LhsValue::Int(*self as i64))
    }
}

impl GenContext for i16 {
    open spec fn lhs_value(&self) -> Option<LhsValueView> {
        Some(LhsValueView::Int(to_i64(*self as int)))
    }

    fn generate_context<'s>(&self, ctx: &mut ExecutionContext<'s>, field_name: &str) -> (r: Result<
        (),
        Error,
    >) {
        proof {
            lemma_to_i64_keeps(*self as int);
        }
        ctx.set_field_value(field_name, LhsValue::Int(*self as i64))
    }
}

impl GenContext for i32 {
    open spec fn lhs_value(&self) -> Option<LhsValueView> {
        Some(LhsValueView::Int(to_i64(*self as int)))
    }

    fn generate_context<'s>(&self, ctx: &mut ExecutionContext<'s>, field_name: &str) -> (r: Result<
        (),
        Error,
    >) {
        proof {
            lemma_to_i64_keeps(*self as int);
        }
        ctx.set_field_value(field_name, LhsValue::Int(*self as i64))
    }
}

impl GenContext for isize {
    open spec fn lhs_value(&self) -> Option<LhsValueView> {
        Some(LhsValueView::Int(to_i64(*self as int)))
    }

    fn generate_context<'s>(&self, ctx: &mut ExecutionContext<'s>, field_name: &str) -> (r: Result<
        (),
        Error,
    >) {
        proof {
            lemma_to_i64_keeps(*self as int);
        }
        ctx.set_field_value(field_name, LhsValue::Int(*self as i64))
    }
}

impl GenContext for u8 {
    open spec fn lhs_value(&self) -> Option<LhsValueView> {
        Some(LhsValueView::Int(to_i64(*self as int)))
    }

    fn generate_context<'s>(&self, ctx: &mut ExecutionContext<'s>, field_name: &str) -> (r: Result<
        (),
        Error,
    >) {
        proof {
            lemma_to_i64_keeps(*self as int);
        }
        ctx.set_field_value(field_name, LhsValue::Int(*self as i64))
    }
}

impl GenContext for u16 {
    open spec fn lhs_value(&self) -> Option<LhsValueView> {
        Some(LhsValueView::Int(to_i64(*self as int)))
    }

    fn generate_context<'s>(&self, ctx: &mut ExecutionContext<'s>, field_name: &str) -> (r: Result<
        (),
        Error,
    >) {
        proof {
            lemma_to_i64_keeps(*self as int);
        }
        ctx.set_field_value(field_name, LhsValue::Int(*self as i64))
    }
}

impl GenContext for u32 {
    open spec fn lhs_value(&self) -> Option<LhsValueView> {
        Some(LhsValueView::Int(to_i64(*self as int)))
    }

    fn generate_context<'s>(&self, ctx: &mut ExecutionContext<'s>, field_name: &str) -> (r: Result<
        (),
        Error,
    >) {
        proof {
            lemma_to_i64_keeps(*self as int);
        }
        ctx.set_field_value(field_name, LhsValue::Int(*self as i64))
    }
}

impl GenContext for i64 {
    open spec fn lhs_value(&self) -> Option<LhsValueView> {
        Some(LhsValueView::Int(to_i64(*self as int)))
    }

    fn generate_context<'s>(&self, ctx: &mut ExecutionContext<'s>, field_name: &str) -> (r: Result<
        (),
        Error,
    >) {
        proof {
            lemma_to_i64_keeps(*self as int);
        }
        ctx.set_field_value(field_name, LhsValue::Int(*self))
    }
}

impl GenContext for u64 {
    open spec fn lhs_value(&self) -> Option<LhsValueView> {
        Some(LhsValueView::Int(to_i64(*self as int)))
    }

    fn generate_context<'s>(&self, ctx: &mut ExecutionContext<'s>, field_name: &str) -> (r: Result<
        (),
        Error,
    >) {
        ctx.set_field_value(field_name, LhsValue::Int(wrap_u64(*self)))
    }
}

impl GenContext for usize {
    open spec fn lhs_value(&self) -> Option<LhsValueView> {
        Some(LhsValueView::Int(to_i64(*self as int)))
    }

    fn generate_context<'s>(&self, ctx: &mut ExecutionContext<'s>, field_name: &str) -> (r: Result<
        (),
        Error,
    >) {
        ctx.set_field_value(field_name, LhsValue::Int(wrap_u64(*self as u64)))
    }
}

impl GenContext for u128 {
    open spec fn lhs_value(&self) -> Option<LhsValueView> {
        Some(LhsValueView::Int(to_i64(*self as int)))
    }

    fn generate_context<'s>(&self, ctx: &mut ExecutionContext<'s>, field_name: &str) -> (r: Result<
        (),
        Error,
    >) {
        ctx.set_field_value(field_name, LhsValue::Int(wrap_u128(*self)))
    }
}

impl GenContext for i128 {
    open spec fn lhs_value(&self) -> Option<LhsValueView> {
        Some(LhsValueView::Int(to_i64(*self as int)))
    }

    fn generate_context<'s>(&self, ctx: &mut ExecutionContext<'s>, field_name: &str) -> (r: Result<
        (),
        Error,
    >) {
        ctx.set_field_value(field_name, LhsValue::Int(wrap_i128(*self)))
    }
}

impl GenContext for IpAddr {
    open spec fn lhs_value(&self) -> Option<LhsValueView> {
        Some(LhsValueView::Ip(*self))
    }

    fn generate_context<'s>(&self, ctx: &mut ExecutionContext<'s>, field_name: &str) -> (r: Result<
        (),
        Error,
    >) {
        ctx.set_field_value(field_name, LhsValue::Ip(*self))
    }
}

impl<T: GenContext> GenContext for Option<T> {
    open spec fn lhs_value(&self) -> Option<LhsValueView> {
        match self {
            Some(t) => t.lhs_value(),
            None => None,
        }
    }

    fn generate_context<'s>(&self, ctx: &mut ExecutionContext<'s>, field_name: &str) -> (r: Result<
        (),
        Error,
    >) {
        match self {
            Some(t) => t.generate_context(ctx, field_name),
            None => Ok(()),
        }
    }
}

impl GenContext for Vec<(String, String)> {
    open spec fn lhs_value(&self) -> Option<LhsValueView> {
        flattened_value(pair_views(self@))
    }

    fn generate_context<'s>(&self, ctx: &mut ExecutionContext<'s>, field_name: &str) -> (r: Result<
        (),
        Error,
    >) {
        let concat = flatten_pairs(self);
        if !concat.as_str().is_empty() {
            concat.generate_context(ctx, field_name)
        } else {
            Ok(())
        }
    }
}

impl GetType for String {
    open spec fn spec_ty() -> Type {
        Type::Bytes
    }

    fn ty() -> (r: Type) {
        Type::Bytes
    }
}

impl GetType for Vec<(String, String)> {
    open spec fn spec_ty() -> Type {
        Type::Bytes
    }

    fn ty() -> (r: Type) {
        Type::Bytes
    }
}

impl GetType for i8 {
    open spec fn spec_ty() -> Type {
        Type::Int
    }

    fn ty() -> (r: Type) {
        Type::Int
    }
}

impl GetType for i16 {
    open spec fn spec_ty() -> Type {
        Type::Int
    }

    fn ty() -> (r: Type) {
        Type::Int
    }
}

impl GetType for i32 {
    open spec fn spec_ty() -> Type {
        Type::Int
    }

    fn ty() -> (r: Type) {
        Type::Int
    }
}

impl GetType for i64 {
    open spec fn spec_ty() -> Type {
        Type::Int
    }

    fn ty() -> (r: Type) {
        Type::Int
    }
}

impl GetType for i128 {
    open spec fn spec_ty() -> Type {
        Type::Int
    }

    fn ty() -> (r: Type) {
        Type::Int
    }
}

impl GetType for isize {
    open spec fn spec_ty() -> Type {
        Type::Int
    }

    fn ty() -> (r: Type) {
        Type::Int
    }
}

impl GetType for u8 {
    open spec fn spec_ty() -> Type {
        Type::Int
    }

    fn ty() -> (r: Type) {
        Type::Int
    }
}

impl GetType for u16 {
    open spec fn spec_ty() -> Type {
        Type::Int
    }

    fn ty() -> (r: Type) {
        Type::Int
    }
}

impl GetType for u32 {
    open spec fn spec_ty() -> Type {
        Type::Int
    }

    fn ty() -> (r: Type) {
        Type::Int
    }
}

impl GetType for u64 {
    open spec fn spec_ty() -> Type {
        Type::Int
    }

    fn ty() -> (r: Type) {
        Type::Int
    }
}

impl GetType for u128 {
    open spec fn spec_ty() -> Type {
        Type::Int
    }

    fn ty() -> (r: Type) {
        Type::Int
    }
}

impl GetType for usize {
    open spec fn spec_ty() -> Type {
        Type::Int
    }

    fn ty() -> (r: Type) {
        Type::Int
    }
}

impl GetType for IpAddr {
    open spec fn spec_ty() -> Type {
        Type::Ip
    }

    fn ty() -> (r: Type) {
        Type::Ip
    }
}

impl<T: GetType> GetType for Option<T> {
    open spec fn spec_ty() -> Type {
        T::spec_ty()
    }

    fn ty() -> (r: Type) {
        T::ty()
    }
}

} // verus!
