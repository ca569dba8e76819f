//! Execution contexts: the values of one instance, keyed by the paths of a
//! scheme.

use vstd::prelude::*;
use crate::errors::{Error, TypeMismatchError};
use crate::scheme::{declared, fields_well_formed, lemma_position_unique, position, Scheme};
use crate::types::{LhsValue, LhsValueView, Type};

verus! {

/// What a context whose scheme has the fields `fields` answers when `value`
/// is offered at `name`.
pub open spec fn set_outcome(
    fields: Seq<(Seq<char>, Type)>,
    name: Seq<char>,
    value: LhsValueView,
) -> Result<(), Error> {
    if !declared(fields).contains_key(name) {
        Err(Error::UnknownField)
    } else if declared(fields)[name] != value.get_type() {
        Err(
            Error::TypeMismatchError(
                TypeMismatchError { expected: declared(fields)[name], actual: value.get_type() },
            ),
        )
    } else {
        Ok(())
    }
}

/// The values that were set for the fields of a scheme. A field holds no
/// value or one of the type that the scheme declares for it.
pub struct ExecutionContext<'s> {
    scheme: &'s Scheme,
    values: Vec<Option<LhsValue>>,
}

impl<'s> View for ExecutionContext<'s> {
    type V = Map<Seq<char>, LhsValueView>;

    closed spec fn view(&self) -> Map<Seq<char>, LhsValueView> {
        Map::new(
            |name: Seq<char>|
                position(self.scheme@, name) is Some && self.values[position(
                    self.scheme@,
                    name,
                ).unwrap()] is Some,
            |name: Seq<char>| self.values[position(self.scheme@, name).unwrap()].unwrap()@,
        )
    }
}

impl<'s> ExecutionContext<'s> {
    /// There is one slot for each field of the scheme, and what a slot holds
    /// has the field's type.
    pub closed spec fn wf(&self) -> bool {
        &&& fields_well_formed(self.scheme@)
        &&& self.values.len() == self.scheme@.len()
        &&& forall|i: int|
            0 <= i < self.values.len() ==> ((#[trigger] self.values[i]) matches Some(v)
                ==> v@.get_type() == self.scheme@[i].1)
    }

    /// The fields of the scheme that the context was made for.
    pub closed spec fn fields(&self) -> Seq<(Seq<char>, Type)> {
        self.scheme@
    }

    /// An empty context for `scheme`.
    pub fn new(scheme: &'s Scheme) -> (ctx: ExecutionContext<'s>)
        ensures
            ctx.wf(),
            ctx.fields() == scheme@,
            ctx@ == Map::<Seq<char>, LhsValueView>::empty(),
    {
        proof {
            use_type_invariant(scheme);
        }
        let n = scheme.field_count();
        let mut values: Vec<Option<LhsValue>> = Vec::new();
        let mut i: usize = 0;
        while i < n
            invariant
                i <= n,
                values.len() == i,
                forall|k: int| 0 <= k < i ==> values[k] is None,
            decreases n - i,
        {
            values.push(None);
            i = i + 1;
        }
        let ctx = ExecutionContext { scheme, values };
        assert(ctx@ =~= Map::<Seq<char>, LhsValueView>::empty());
        ctx
    }

    /// The scheme that the context was made for.
    pub fn scheme(&self) -> (scheme: &'s Scheme)
        ensures
            scheme@ == self.fields(),
    {
        self.scheme
    }

    /// Sets the field `name` to `value`. A field that the scheme does not
    /// declare, or declares with another type, is refused and the context
    /// stays as it was.
    pub fn set_field_value(&mut self, name: &str, value: LhsValue) -> (r: Result<(), Error>)
        requires
            old(self).wf(),
        ensures
            final(self).wf(),
            final(self).fields() == old(self).fields(),
            r == set_outcome(old(self).fields(), name@, value@),
            final(self)@ == if r is Ok {
                old(self)@.insert(name@, value@)
            } else {
                old(self)@
            },
    {
        match self.scheme.get_field(name) {
            None => Err(Error::UnknownField),
            Some((i, expected)) => {
                let actual = value.get_type();
                if expected == actual {
                    let ghost before = *self;
                    self.values.set(i, Some(value));
                    proof {
                        let fields = self.scheme@;
                        assert forall|other: Seq<char>| other != name@ && position(fields, other) is Some
                            implies position(fields, other).unwrap() != i by {
                            let k = position(fields, other).unwrap();
                            assert(fields[k].0 == other);
                        }
                        assert(self@ =~= before@.insert(name@, value@));
                    }
                    Ok(())
                } else {
                    Err(Error::TypeMismatchError(TypeMismatchError { expected, actual }))
                }
            },
        }
    }

    /// The value of the field `name`, if one was set.
    pub fn get_field_value(&self, name: &str) -> (r: Option<&LhsValue>)
        requires
            self.wf(),
        ensures
            match r {
                Some(value) => self@.contains_key(name@) && self@[name@] == value@,
                None => !self@.contains_key(name@),
            },
    {
        match self.scheme.get_field(name) {
            None => None,
            Some((i, _)) => self.values[i].as_ref(),
        }
    }

    /// What a context holds has the type that its scheme declares.
    pub proof fn lemma_values_typed(&self, name: Seq<char>)
        requires
            self.wf(),
            self@.contains_key(name),
        ensures
            declared(self.fields()).contains_key(name),
            declared(self.fields())[name] == self@[name].get_type(),
    {
        let i = position(self.scheme@, name).unwrap();
        assert(self.scheme@[i].0 == name);
        assert(self.values[i] is Some);
    }
}

} // verus!
