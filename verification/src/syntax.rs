//! The definition of a structure as the reflection reads it: annotations,
//! named fields, and the types the fields are declared with.

use vstd::prelude::*;
use crate::scan::{is_readable, readable};

verus! {

/// The literal on the right of an annotation.
#[derive(Debug)]
pub enum Lit {
    /// A string literal, by the text it denotes.
    Str(String),
    /// Any other literal.
    Other,
}

/// What a [`Lit`] holds, with text as a sequence of characters.
pub enum LitView {
    Str(Seq<char>),
    Other,
}

impl View for Lit {
    type V = LitView;

    open spec fn view(&self) -> LitView {
        match self {
            Lit::Str(s) => LitView::Str(s@),
            Lit::Other => LitView::Other,
        }
    }
}

/// The shape of an annotation's arguments.
#[derive(Debug)]
pub enum Meta {
    /// A bare path, as in `ignore`.
    Path,
    /// A path with a list in parentheses, as in `rename(a, b)`.
    List,
    /// A path, `=` and a literal, as in `name = "a"`. The path is held by the
    /// identifiers of its segments.
    NameValue(Vec<String>, Lit),
}

/// What a [`Meta`] holds, with text as sequences of characters.
pub enum MetaView {
    Path,
    List,
    NameValue(Seq<Seq<char>>, LitView),
}

impl View for Meta {
    type V = MetaView;

    open spec fn view(&self) -> MetaView {
        match self {
            Meta::Path => MetaView::Path,
            Meta::List => MetaView::List,
            Meta::NameValue(path, lit) => MetaView::NameValue(
                Seq::new(path.len() as nat, |i: int| path[i]@),
                lit@,
            ),
        }
    }
}

/// One annotation of a structure or of a field. `meta` is `None` where the
/// arguments have none of the three shapes.
#[derive(Debug)]
pub struct Attribute {
    pub meta: Option<Meta>,
}

impl View for Attribute {
    type V = Option<MetaView>;

    open spec fn view(&self) -> Option<MetaView> {
        match self.meta {
            Some(meta) => Some(meta@),
            None => None,
        }
    }
}

/// The shape that syn's parser for `syn::Meta` finds in a text that is
/// read, or `None` where it reports an error.
///
/// A text that is read is a sequence of identifiers, punctuation marks,
/// parentheses, decimal integers and string literals. proc-macro2's own
/// lexer and the compiler's, which proc-macro2 uses inside a procedural
/// macro after its own has accepted the text, cut such a text into the same
/// tokens, and syn's parser sees nothing but the tokens: what it finds
/// depends on the text alone.
pub uninterp spec fn parsed_meta(args: Seq<char>) -> Option<MetaView>;

/// Calls `syn::parse_str::<syn::Meta>` on `args` and hands on the shape
/// that syn found: which of the three variants, and for a name-value pair the
/// identifiers of the path's segments and the literal, a string literal by
/// the text that `LitStr::value` gives. An error of syn's becomes `None`.
///
/// Only texts that are read are admitted: their only literals are decimal
/// integers and string literals with the escapes that syn's `Lit::new` and
/// `LitStr::value` take without a panic; on a literal of a kind it does not
/// know `Lit::new` panics. The result is named, not stated; beside the name
/// stands that syn's parser accepts no path without a segment.
#[verifier::external_body]
fn parse_meta(args: &str) -> (r: Option<Meta>)
    requires
        readable(args@),
    ensures
        match r {
            Some(meta) => parsed_meta(args@) == Some(meta@),
            None => parsed_meta(args@) is None,
        },
        r matches Some(Meta::NameValue(path, _)) ==> path.len() > 0,
{
    match syn::parse_str::<syn::Meta>(args) {
        Ok(syn::Meta::Path(_)) => Some(Meta::Path),
        Ok(syn::Meta::List(_)) => Some(Meta::List),
        Ok(syn::Meta::NameValue(pair)) => {
            let path = pair.path.segments.iter().map(|segment| segment.ident.to_string()).collect();
            match pair.lit {
                syn::Lit::Str(text) => Some(Meta::NameValue(path, Lit::Str(text.value()))),
                _ => Some(Meta::NameValue(path, Lit::Other)),
            }
        },
        Err(_) => None,
    }
}

/// The annotation that the text `args` stands for: the shape that is found
/// in it where it is read, and none otherwise.
pub open spec fn parsed(args: Seq<char>) -> Option<MetaView> {
    if readable(args) {
        parsed_meta(args)
    } else {
        None
    }
}

impl Attribute {
    /// The annotation whose arguments are written `args`: the text between
    /// the parentheses of `#[field(..)]`. A text that is not read has no
    /// shape, and neither has one in which no shape is found.
    pub fn parse(args: &str) -> (attr: Attribute)
        ensures
            attr@ == parsed(args@),
            attr@ matches Some(MetaView::NameValue(path, _)) ==> path.len() > 0,
    {
        if is_readable(args) {
            Attribute { meta: parse_meta(args) }
        } else {
            Attribute { meta: None }
        }
    }
}

/// What follows the identifier of a path segment.
#[derive(Debug)]
pub enum PathArguments {
    /// Nothing, as in `String`.
    Empty,
    /// Arguments in angle brackets, as in `Option<String>`.
    AngleBracketed(Vec<GenericArgument>),
    /// Arguments in parentheses, as in `Fn(u8) -> u8`.
    Parenthesized,
}

/// One argument in angle brackets.
#[derive(Debug)]
pub enum GenericArgument {
    /// A type.
    Type(TypeExpr),
    /// A lifetime, a constant, a binding or a constraint.
    Other,
}

/// One segment of a path: an identifier and its arguments.
#[derive(Debug)]
pub struct PathSegment {
    pub ident: String,
    pub arguments: PathArguments,
}

/// A path such as `std::net::IpAddr`.
#[derive(Debug)]
pub struct Path {
    /// Whether the path starts with `::`.
    pub leading_colon: bool,
    pub segments: Vec<PathSegment>,
}

/// A type as it is written in a field's declaration.
#[derive(Debug)]
pub enum TypeExpr {
    /// A path; `qself` says whether it has an explicit self type, as in
    /// `<T as Trait>::Item`.
    Path { qself: bool, path: Path },
    /// A tuple of types.
    Tuple(Vec<TypeExpr>),
    /// Any other type: a reference, a slice, a function pointer and so on.
    Other,
}

/// One named field of a structure.
#[derive(Debug)]
pub struct Field {
    pub attrs: Vec<Attribute>,
    pub ident: String,
    pub ty: TypeExpr,
}

/// A structure with named fields, in the order of their declaration.
#[derive(Debug)]
pub struct DeriveInput {
    pub attrs: Vec<Attribute>,
    pub ident: String,
    pub fields: Vec<Field>,
}

} // verus!
