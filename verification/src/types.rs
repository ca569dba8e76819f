//! The kinds of value that a scheme can declare, and the values themselves.

use vstd::prelude::*;

verus! {

/// The type that a scheme declares for a field.
#[derive(Clone, Copy, Debug, PartialEq, Eq, Hash, Structural)]
pub enum Type {
    /// Text.
    Bytes,
    /// A signed 64-bit integer.
    Int,
    /// A network address.
    Ip,
}

/// A network address, version 4 by its four octets or version 6 by its eight
/// groups of sixteen bits, most significant first.
#[derive(Clone, Copy, Debug, PartialEq, Eq, Hash, Structural)]
pub enum IpAddr {
    V4(u8, u8, u8, u8),
    V6(u16, u16, u16, u16, u16, u16, u16, u16),
}

/// A value that can stand at a field of an execution context.
#[derive(Debug, PartialEq, Eq)]
pub enum LhsValue {
    Bytes(String),
    Int(i64),
    Ip(IpAddr),
}

/// What an [`LhsValue`] holds, with text as a sequence of characters.
pub enum LhsValueView {
    Bytes(Seq<char>),
    Int(i64),
    Ip(IpAddr),
}

impl LhsValueView {
    /// The type of scheme field at which this value can stand.
    pub open spec fn get_type(self) -> Type {
        match self {
            LhsValueView::Bytes(_) => Type::Bytes,
            LhsValueView::Int(_) => Type::Int,
            LhsValueView::Ip(_) => Type::Ip,
        }
    }
}

impl View for LhsValue {
    type V = LhsValueView;

    open spec fn view(&self) -> LhsValueView {
        match self {
            LhsValue::Bytes(s) => LhsValueView::Bytes(s@),
            LhsValue::Int(i) => LhsValueView::Int(*i),
            LhsValue::Ip(a) => LhsValueView::Ip(*a),
        }
    }
}

impl Clone for LhsValue {
    fn clone(&self) -> (copy: LhsValue)
        ensures
            copy@ == self@,
    {
        match self {
            LhsValue::Bytes(s) => LhsValue::Bytes(s.clone()),
            LhsValue::Int(i) => LhsValue::Int(*i),
            LhsValue::Ip(a) => LhsValue::Ip(*a),
        }
    }
}

impl LhsValue {
    /// The type of scheme field at which this value can stand.
    pub fn get_type(&self) -> (ty: Type)
        ensures
            ty == self@.get_type(),
    {
        match self {
            LhsValue::Bytes(_) => Type::Bytes,
            LhsValue::Int(_) => Type::Int,
            LhsValue::Ip(_) => Type::Ip,
        }
    }
}

} // verus!
