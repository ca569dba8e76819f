//! From the type that a field is declared with to its semantic type.

use vstd::prelude::*;
use crate::annotations::is_text;
use crate::errors::Error;
use crate::syntax::{GenericArgument, Path, PathArguments, TypeExpr};
use crate::types::Type;

verus! {

/// Whether `path` is the single identifier `name`, with or without
/// arguments, and without a leading `::`.
pub open spec fn path_is(path: Path, name: Seq<char>) -> bool {
    &&& !path.leading_colon
    &&& path.segments.len() == 1
    &&& path.segments[0].ident@ == name
}

/// The name of the type that a path without arguments names: the identifier
/// of its last segment.
pub open spec fn plain_name(path: Path) -> Option<Seq<char>> {
    if path.segments.len() > 0 && forall|i: int|
        0 <= i < path.segments.len() ==> (#[trigger] path.segments[i]).arguments is Empty {
        Some(path.segments@.last().ident@)
    } else {
        None
    }
}

/// Whether `name` is the name of one of the integer types.
pub open spec fn is_integer_name(name: Seq<char>) -> bool {
    ||| name == "i8"@
    ||| name == "i16"@
    ||| name == "i32"@
    ||| name == "i64"@
    ||| name == "i128"@
    ||| name == "isize"@
    ||| name == "u8"@
    ||| name == "u16"@
    ||| name == "u32"@
    ||| name == "u64"@
    ||| name == "u128"@
    ||| name == "usize"@
}

/// The semantic type that is registered for the type named `name`.
pub open spec fn registered(name: Seq<char>) -> Option<Type> {
    if name == "String"@ {
        Some(Type::Bytes)
    } else if is_integer_name(name) {
        Some(Type::Int)
    } else if name == "IpAddr"@ {
        Some(Type::Ip)
    } else {
        None
    }
}

/// Whether `ty` is the type `String`.
pub open spec fn is_text_type(ty: TypeExpr) -> bool {
    ty matches TypeExpr::Path { qself, path } && !qself && plain_name(path) == Some("String"@)
}

/// Whether `ty` is a pair of `String`s.
pub open spec fn is_text_pair(ty: TypeExpr) -> bool {
    ty matches TypeExpr::Tuple(elems) && elems.len() == 2 && is_text_type(elems[0])
        && is_text_type(elems[1])
}

/// The semantic type of a field that is declared with the type `ty`, or
/// `None` where it has none: that of what `Option<..>` wraps, text for
/// `Vec<(String, String)>`, and for a path without arguments the type that is
/// registered for its name.
pub open spec fn resolved(ty: TypeExpr) -> Option<Type>
    decreases ty,
{
    match ty {
        TypeExpr::Path { qself, path } => {
            if qself {
                None
            } else if path_is(path, "Option"@) {
                match path.segments[0].arguments {
                    PathArguments::AngleBracketed(args) => {
                        if args.len() > 0 {
                            match args[0] {
                                GenericArgument::Type(inner) => resolved(inner),
                                _ => None,
                            }
                        } else {
                            None
                        }
                    },
                    _ => None,
                }
            } else if path_is(path, "Vec"@) {
                match path.segments[0].arguments {
                    PathArguments::AngleBracketed(args) => {
                        if args.len() > 0 {
                            match args[0] {
                                GenericArgument::Type(inner) => if is_text_pair(inner) {
                                    Some(Type::Bytes)
                                } else {
                                    None
                                },
                                _ => None,
                            }
                        } else {
                            None
                        }
                    },
                    _ => None,
                }
            } else {
                match plain_name(path) {
                    Some(name) => registered(name),
                    None => None,
                }
            }
        },
        _ => None,
    }
}

/// Whether `path` is the single identifier `name`.
fn path_names(path: &Path, name: &str) -> (r: bool)
    ensures
        r == path_is(*path, name@),
{
    !path.leading_colon && path.segments.len() == 1 && is_text(&path.segments[0].ident, name)
}

/// Whether `path` is `Option`, with or without arguments.
pub fn path_is_option(path: &Path) -> (r: bool)
    ensures
        r == path_is(*path, "Option"@),
{
    path_names(path, "Option")
}

/// Whether `path` is `Vec`, with or without arguments.
pub fn path_is_vec(path: &Path) -> (r: bool)
    ensures
        r == path_is(*path, "Vec"@),
{
    path_names(path, "Vec")
}

/// The name of the type that a path without arguments names.
fn plain_name_of(path: &Path) -> (r: Option<&String>)
    ensures
        match r {
            Some(name) => plain_name(*path) == Some(name@),
            None => plain_name(*path) is None,
        },
{
    let n = path.segments.len();
    if n == 0 {
        return None;
    }
    let mut i: usize = 0;
    while i < n
        invariant
            i <= n,
            n == path.segments.len(),
            forall|k: int| 0 <= k < i ==> (#[trigger] path.segments[k]).arguments is Empty,
        decreases n - i,
    {
        match &path.segments[i].arguments {
            PathArguments::Empty => {},
            _ => {
                return None;
            },
        }
        i = i + 1;
    }
    Some(&path.segments[n - 1].ident)
}

/// The semantic type that is registered for the type named `name`.
fn lookup(name: &String) -> (r: Option<Type>)
    ensures
        r == registered(name@),
{
    if is_text(name, "String") {
        Some(Type::Bytes)
    } else if is_text(name, "i8") || is_text(name, "i16") || is_text(name, "i32") || is_text(
        name,
        "i64",
    ) || is_text(name, "i128") || is_text(name, "isize") || is_text(name, "u8") || is_text(
        name,
        "u16",
    ) || is_text(name, "u32") || is_text(name, "u64") || is_text(name, "u128") || is_text(
        name,
        "usize",
    ) {
        Some(Type::Int)
    } else if is_text(name, "IpAddr") {
        Some(Type::Ip)
    } else {
        None
    }
}

/// Whether `ty` is the type `String`.
fn text_type(ty: &TypeExpr) -> (r: bool)
    ensures
        r == is_text_type(*ty),
{
    match ty {
        TypeExpr::Path { qself, path } => {
            if *qself {
                false
            } else {
                match plain_name_of(path) {
                    Some(name) => is_text(name, "String"),
                    None => false,
                }
            }
        },
        _ => false,
    }
}

/// Whether `ty` is a pair of `String`s.
fn text_pair(ty: &TypeExpr) -> (r: bool)
    ensures
        r == is_text_pair(*ty),
{
    match ty {
        TypeExpr::Tuple(elems) => elems.len() == 2 && text_type(&elems[0]) && text_type(&elems[1]),
        _ => false,
    }
}

/// The first argument in the angle brackets of the path's first segment, if
/// it is a type.
fn first_type_argument(path: &Path) -> (r: Option<&TypeExpr>)
    requires
        path.segments.len() > 0,
    ensures
        match r {
            Some(inner) => path.segments[0].arguments matches PathArguments::AngleBracketed(args)
                && args.len() > 0 && args[0] == GenericArgument::Type(*inner),
            None => !(path.segments[0].arguments matches PathArguments::AngleBracketed(args)
                && args.len() > 0 && args[0] is Type),
        },
{
    match &path.segments[0].arguments {
        PathArguments::AngleBracketed(args) => {
            if args.len() > 0 {
                match &args[0] {
                    GenericArgument::Type(inner) => Some(inner),
                    _ => None,
                }
            } else {
                None
            }
        },
        _ => None,
    }
}

/// The semantic type of a field that is declared with the type `ty`.
pub fn resolve(ty: &TypeExpr) -> (r: Result<Type, Error>)
    ensures
        match r {
            Ok(t) => resolved(*ty) == Some(t),
            Err(e) => resolved(*ty) is None && e == Error::UnsupportedType,
        },
    decreases ty,
{
    match ty {
        TypeExpr::Path { qself, path } => {
            if *qself {
                Err(Error::UnsupportedType)
            } else if path_is_option(path) {
                match first_type_argument(path) {
                    Some(inner) => resolve(inner),
                    None => Err(Error::UnsupportedType),
                }
            } else if path_is_vec(path) {
                match first_type_argument(path) {
                    Some(inner) => {
                        if text_pair(inner) {
                            Ok(Type::Bytes)
                        } else {
                            Err(Error::UnsupportedType)
                        }
                    },
                    None => Err(Error::UnsupportedType),
                }
            } else {
                match plain_name_of(path) {
                    Some(name) => match lookup(name) {
                        Some(t) => Ok(t),
                        None => Err(Error::UnsupportedType),
                    },
                    None => Err(Error::UnsupportedType),
                }
            }
        },
        _ => Err(Error::UnsupportedType),
    }
}

} // verus!
