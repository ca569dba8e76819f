//! Reading the annotations of a structure or of a field.

use vstd::prelude::*;
use crate::errors::Error;
use crate::syntax::{Attribute, Lit, LitView, Meta, MetaView};

verus! {

/// Whether an annotation has the form `key = literal`.
pub open spec fn is_name_value(attr: Option<MetaView>) -> bool {
    attr matches Some(MetaView::NameValue(_, _))
}

/// Whether an annotation has the form `key = literal` and the first segment
/// of its key is `key`.
pub open spec fn has_key(attr: Option<MetaView>, key: Seq<char>) -> bool {
    attr matches Some(MetaView::NameValue(path, _)) && path.len() > 0 && path[0] == key
}

/// The name that an annotation gives: the text of `name = "text"`.
pub open spec fn rename_of(attr: Option<MetaView>) -> Option<Seq<char>> {
    match attr {
        Some(MetaView::NameValue(path, LitView::Str(text))) if path.len() > 0 && path[0]
            == "name"@ => Some(text),
        _ => None,
    }
}

/// Some annotation of the list does not have the form `key = literal`.
pub open spec fn malformed(attrs: Seq<Attribute>) -> bool {
    exists|i: int| 0 <= i < attrs.len() && !is_name_value((#[trigger] attrs[i])@)
}

/// The name that the first annotation of the list that gives one gives.
pub open spec fn renamed(attrs: Seq<Attribute>) -> Option<Seq<char>>
    decreases attrs.len(),
{
    if attrs.len() == 0 {
        None
    } else if rename_of(attrs[0]@) is Some {
        rename_of(attrs[0]@)
    } else {
        renamed(attrs.drop_first())
    }
}

/// Some annotation of the list has the key `ignore`.
pub open spec fn ignored(attrs: Seq<Attribute>) -> bool {
    exists|i: int| 0 <= i < attrs.len() && has_key((#[trigger] attrs[i])@, "ignore"@)
}

/// Whether `s` is the text `text`.
pub(crate) fn is_text(s: &String, text: &str) -> (r: bool)
    ensures
        r == (s@ == text@),
{
    let wanted = text.to_owned();
    *s == wanted
}

/// The name that an annotation gives, if it gives one.
fn rename_in(attr: &Attribute) -> (r: Option<&String>)
    ensures
        match r {
            Some(text) => rename_of(attr@) == Some(text@),
            None => rename_of(attr@) is None,
        },
{
    match &attr.meta {
        Some(Meta::NameValue(path, Lit::Str(text))) => {
            if path.len() > 0 && is_text(&path[0], "name") {
                Some(text)
            } else {
                None
            }
        },
        _ => None,
    }
}

/// Whether an annotation has the key `key`.
fn keyed(attr: &Attribute, key: &str) -> (r: bool)
    ensures
        r == has_key(attr@, key@),
{
    match &attr.meta {
        Some(Meta::NameValue(path, _)) => path.len() > 0 && is_text(&path[0], key),
        _ => false,
    }
}

/// Whether an annotation has the form `key = literal`.
fn name_value(attr: &Attribute) -> (r: bool)
    ensures
        r == is_name_value(attr@),
{
    match &attr.meta {
        Some(Meta::NameValue(_, _)) => true,
        _ => false,
    }
}

/// The name that the annotations give: the text of the first `name = "text"`
/// among them. An annotation that does not have the form `key = literal` is an
/// error, wherever it stands in the list.
pub fn renamed_field(attrs: &Vec<Attribute>) -> (r: Result<Option<String>, Error>)
    ensures
        match r {
            Ok(Some(name)) => !malformed(attrs@) && renamed(attrs@) == Some(name@),
            Ok(None) => !malformed(attrs@) && renamed(attrs@) is None,
            Err(e) => malformed(attrs@) && e == Error::MalformedAnnotation,
        },
{
    let mut found: Option<String> = None;
    let mut i: usize = 0;
    assert(attrs@.skip(0) == attrs@);
    while i < attrs.len()
        invariant
            i <= attrs.len(),
            forall|k: int| 0 <= k < i ==> is_name_value((#[trigger] attrs@[k])@),
            match found {
                Some(name) => renamed(attrs@) == Some(name@),
                None => renamed(attrs@) == renamed(attrs@.skip(i as int)),
            },
        decreases attrs.len() - i,
    {
        if !name_value(&attrs[i]) {
            return Err(Error::MalformedAnnotation);
        }
        if found.is_none() {
            proof {
                assert(attrs@.skip(i as int)[0] == attrs@[i as int]);
                assert(attrs@.skip(i as int).drop_first() == attrs@.skip(i + 1));
            }
            match rename_in(&attrs[i]) {
                Some(text) => {
                    found = Some(text.clone());
                },
                None => {},
            }
        }
        i = i + 1;
    }
    Ok(found)
}

/// Whether the annotations mark their field as ignored: whether one of them
/// has the key `ignore`, whatever its literal. An annotation that has not the
/// form `key = literal` is an error, wherever it stands in the list.
pub fn ignore(attrs: &Vec<Attribute>) -> (r: Result<bool, Error>)
    ensures
        match r {
            Ok(b) => !malformed(attrs@) && b == ignored(attrs@),
            Err(e) => malformed(attrs@) && e == Error::MalformedAnnotation,
        },
{
    let mut found = false;
    let mut i: usize = 0;
    while i < attrs.len()
        invariant
            i <= attrs.len(),
            forall|k: int| 0 <= k < i ==> is_name_value((#[trigger] attrs@[k])@),
            found == exists|k: int| 0 <= k < i && has_key((#[trigger] attrs@[k])@, "ignore"@),
        decreases attrs.len() - i,
    {
        if !name_value(&attrs[i]) {
            return Err(Error::MalformedAnnotation);
        }
        if keyed(&attrs[i], "ignore") {
            found = true;
        }
        i = i + 1;
    }
    Ok(found)
}

} // verus!
