//! Schemes: the ordered, typed fields against which contexts are filled.

use vstd::prelude::*;
use vstd::string::*;
use crate::errors::SchemeError;
use crate::types::Type;

verus! {

/// A path is well formed when cutting it at each `.` leaves no empty segment.
pub open spec fn path_well_formed(path: Seq<char>) -> bool {
    &&& path.len() > 0
    &&& path[0] != '.'
    &&& path[path.len() - 1] != '.'
    &&& forall|i: int| 0 <= i < path.len() - 1 ==> !(#[trigger] path[i] == '.' && path[i + 1] == '.')
}

/// The fields of a list, each path as a sequence of characters.
pub open spec fn field_views(fields: Seq<(String, Type)>) -> Seq<(Seq<char>, Type)> {
    Seq::new(fields.len(), |i: int| (fields[i].0@, fields[i].1))
}

/// Why the entry at `i` cannot join the entries before it, if it cannot.
pub open spec fn entry_fault(fields: Seq<(Seq<char>, Type)>, i: int) -> Option<SchemeError> {
    if !path_well_formed(fields[i].0) {
        Some(SchemeError::MalformedPath)
    } else if exists|j: int| 0 <= j < i && (#[trigger] fields[j]).0 == fields[i].0 {
        Some(SchemeError::FieldRedefinition)
    } else {
        None
    }
}

/// Every path is well formed and none stands twice.
pub open spec fn fields_well_formed(fields: Seq<(Seq<char>, Type)>) -> bool {
    forall|i: int| 0 <= i < fields.len() ==> entry_fault(fields, i) is None
}

/// Where `name` stands among the paths of `fields`.
pub open spec fn position(fields: Seq<(Seq<char>, Type)>, name: Seq<char>) -> Option<int> {
    if exists|i: int| 0 <= i < fields.len() && (#[trigger] fields[i]).0 == name {
        Some(choose|i: int| 0 <= i < fields.len() && (#[trigger] fields[i]).0 == name)
    } else {
        None
    }
}

/// The type that `fields` declares for each of its paths.
pub open spec fn declared(fields: Seq<(Seq<char>, Type)>) -> Map<Seq<char>, Type> {
    Map::new(
        |name: Seq<char>| position(fields, name) is Some,
        |name: Seq<char>| fields[position(fields, name).unwrap()].1,
    )
}

/// In a well-formed list a path stands at one index only.
pub proof fn lemma_position_unique(fields: Seq<(Seq<char>, Type)>, i: int)
    requires
        fields_well_formed(fields),
        0 <= i < fields.len(),
    ensures
        position(fields, fields[i].0) == Some(i),
{
    let k = position(fields, fields[i].0).unwrap();
    if k < i {
        assert(entry_fault(fields, i) is None);
    } else if i < k {
        assert(entry_fault(fields, k) is None);
    }
}

/// Whether cutting `path` at each `.` leaves no empty segment.
pub fn is_well_formed_path(path: &str) -> (r: bool)
    ensures
        r == path_well_formed(path@),
{
    let n = path.unicode_len();
    if n == 0 {
        return false;
    }
    let mut after_dot = true;
    let mut i: usize = 0;
    while i < n
        invariant
            i <= n,
            n == path@.len(),
            after_dot == (i == 0 || path@[i - 1] == '.'),
            i > 0 ==> path@[0] != '.',
            forall|j: int| 0 <= j < i - 1 ==> !(#[trigger] path@[j] == '.' && path@[j + 1] == '.'),
        decreases n - i,
    {
        let c = path.get_char(i);
        if c == '.' && after_dot {
            proof {
                if i > 0 {
                    assert(path@[i - 1] == '.' && path@[i - 1 + 1] == '.');
                }
            }
            return false;
        }
        after_dot = c == '.';
        i = i + 1;
    }
    !after_dot
}

/// An ordered list of fields, each a path with its type. Every path is well
/// formed and no path stands twice.
pub struct Scheme {
    fields: Vec<(String, Type)>,
}

impl View for Scheme {
    type V = Seq<(Seq<char>, Type)>;

    closed spec fn view(&self) -> Seq<(Seq<char>, Type)> {
        field_views(self.fields@)
    }
}

impl Scheme {
    #[verifier::type_invariant]
    pub open spec fn well_formed(self) -> bool {
        fields_well_formed(self@)
    }

    /// The scheme of `fields`, in their order. The first entry whose path is
    /// malformed or stands earlier in the list decides the error.
    pub fn try_from_iter(fields: Vec<(String, Type)>) -> (r: Result<Scheme, SchemeError>)
        ensures
            match r {
                Ok(scheme) => scheme@ == field_views(fields@) && fields_well_formed(scheme@),
                Err(e) => exists|k: int|
                    {
                        &&& 0 <= k < fields.len()
                        &&& #[trigger] entry_fault(field_views(fields@), k) == Some(e)
                        &&& forall|j: int| 0 <= j < k ==> entry_fault(field_views(fields@), j) is None
                    },
            },
    {
        let ghost views = field_views(fields@);
        let n = fields.len();
        let mut i: usize = 0;
        while i < n
            invariant
                i <= n,
                n == fields.len(),
                views == field_views(fields@),
                forall|k: int| 0 <= k < i ==> entry_fault(views, k) is None,
            decreases n - i,
        {
            if !is_well_formed_path(fields[i].0.as_str()) {
                assert(entry_fault(views, i as int) == Some(SchemeError::MalformedPath));
                return Err(SchemeError::MalformedPath);
            }
            let mut j: usize = 0;
            while j < i
                invariant
                    j <= i < n,
                    n == fields.len(),
                    views == field_views(fields@),
                    path_well_formed(views[i as int].0),
                    forall|k: int| 0 <= k < i ==> entry_fault(views, k) is None,
                    forall|k: int| 0 <= k < j ==> (#[trigger] views[k]).0 != views[i as int].0,
                decreases i - j,
            {
                if fields[j].0 == fields[i].0 {
                    assert(views[j as int].0 == views[i as int].0);
                    assert(entry_fault(views, i as int) == Some(SchemeError::FieldRedefinition));
                    return Err(SchemeError::FieldRedefinition);
                }
                j = j + 1;
            }
            i = i + 1;
        }
        Ok(Scheme { fields })
    }

    /// How many fields the scheme declares.
    pub fn field_count(&self) -> (n: usize)
        ensures
            n == self@.len(),
    {
        self.fields.len()
    }

    /// The index at which the scheme declares `name`, and the type it
    /// declares for it.
    pub fn get_field(&self, name: &str) -> (r: Option<(usize, Type)>)
        ensures
            match r {
                Some((i, ty)) => position(self@, name@) == Some(i as int) && i < self@.len()
                    && self@[i as int].1 == ty,
                None => position(self@, name@) is None,
            },
    {
        proof {
            use_type_invariant(self);
        }
        let wanted = name.to_owned();
        let mut i: usize = 0;
        while i < self.fields.len()
            invariant
                i <= self.fields.len(),
                wanted@ == name@,
                fields_well_formed(self@),
                forall|k: int| 0 <= k < i ==> (#[trigger] self@[k]).0 != name@,
            decreases self.fields.len() - i,
        {
            if self.fields[i].0 == wanted {
                proof {
                    assert(self@[i as int].0 == name@);
                    lemma_position_unique(self@, i as int);
                }
                return Some((i, self.fields[i].1));
            }
            i = i + 1;
        }
        None
    }

    /// The index at which the scheme declares `name`.
    pub fn get_field_index(&self, name: &str) -> (r: Option<usize>)
        ensures
            match r {
                Some(i) => position(self@, name@) == Some(i as int),
                None => position(self@, name@) is None,
            },
    {
        match self.get_field(name) {
            Some((i, _)) => Some(i),
            None => None,
        }
    }

    /// The type that the scheme declares for `name`.
    pub fn get_type(&self, name: &str) -> (r: Option<Type>)
        ensures
            r == declared(self@).get(name@),
    {
        match self.get_field(name) {
            Some((_, ty)) => Some(ty),
            None => None,
        }
    }
}

} // verus!
