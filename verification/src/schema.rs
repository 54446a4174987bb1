//! An immutable snapshot of a table's shape.
//!
//! A schema pairs an ordered sequence of column names with the type tags of
//! those columns, positionally aligned. It is created once per query from a
//! table and does not track the table afterwards.

use vstd::prelude::*;
use crate::dtype::DType;

verus! {

/// No name occurs twice.
pub open spec fn distinct_names(names: Seq<Seq<char>>) -> bool {
    forall|i: int, j: int| 0 <= i < j < names.len() ==> names[i] != names[j]
}

/// `name` occurs among `names`.
pub open spec fn contains_name(names: Seq<Seq<char>>, name: Seq<char>) -> bool {
    exists|i: int| 0 <= i < names.len() && names[i] == name
}

/// The position of `name` among `names`; meaningful only when it occurs.
pub open spec fn index_of_name(names: Seq<Seq<char>>, name: Seq<char>) -> int {
    choose|i: int| 0 <= i < names.len() && names[i] == name
}

/// The mathematical value of a [`Schema`].
#[verifier::ext_equal]
pub struct SchemaView {
    pub names: Seq<Seq<char>>,
    pub types: Seq<DType>,
}

impl SchemaView {
    /// Well-formedness: one type per name, no duplicate names, and every
    /// type a data tag of the registry.
    pub open spec fn wf(self) -> bool {
        &&& self.names.len() == self.types.len()
        &&& distinct_names(self.names)
        &&& forall|i: int| 0 <= i < self.types.len() ==> (#[trigger] self.types[i]).is_data_spec()
    }
}

/// An ordered, paired snapshot of column names and their type tags.
pub struct Schema {
    names: Vec<String>,
    types: Vec<DType>,
}

impl View for Schema {
    type V = SchemaView;

    closed spec fn view(&self) -> SchemaView {
        SchemaView { names: self.names.deep_view(), types: self.types@ }
    }
}

impl Schema {
    /// Well-formedness of the snapshot; every schema a table hands out has it.
    pub open spec fn wf(self) -> bool {
        self@.wf()
    }

    /// Packs an already validated shape into a snapshot.
    pub(crate) fn new_unchecked(names: Vec<String>, types: Vec<DType>) -> (r: Schema)
        ensures
            r@ == (SchemaView { names: names.deep_view(), types: types@ }),
    {
        Schema { names, types }
    }

    /// The column names, in declaration order.
    pub fn columns(&self) -> (r: Vec<String>)
        ensures
            r.deep_view() == self@.names,
    {
        copy_names(&self.names)
    }

    /// The column type tags, positionally aligned with [`Schema::columns`].
    pub fn types(&self) -> (r: Vec<DType>)
        ensures
            r@ == self@.types,
    {
        copy_types(&self.types)
    }
}

/// Copies a name sequence element by element.
pub(crate) fn copy_names(names: &Vec<String>) -> (r: Vec<String>)
    ensures
        r.deep_view() == names.deep_view(),
{
    let mut out: Vec<String> = Vec::new();
    let mut i: usize = 0;
    while i < names.len()
        invariant
            i <= names.len(),
            out@.len() == i,
            forall|k: int| 0 <= k < i ==> (#[trigger] out@[k])@ == names@[k]@,
        decreases names.len() - i,
    {
        out.push(names[i].clone());
        i = i + 1;
    }
    proof {
        assert(out.deep_view() =~= names.deep_view());
    }
    out
}

/// Copies a type sequence element by element.
pub(crate) fn copy_types(types: &Vec<DType>) -> (r: Vec<DType>)
    ensures
        r@ == types@,
{
    let mut out: Vec<DType> = Vec::new();
    let mut i: usize = 0;
    while i < types.len()
        invariant
            i <= types.len(),
            out@ == types@.subrange(0, i as int),
        decreases types.len() - i,
    {
        out.push(types[i]);
        proof {
            assert(out@ =~= types@.subrange(0, i as int + 1));
        }
        i = i + 1;
    }
    proof {
        assert(out@ =~= types@);
    }
    out
}

/// Looks a name up among `names`, returning its position.
pub(crate) fn find_name(names: &Vec<String>, key: &str) -> (r: Option<usize>)
    ensures
        match r {
            Some(i) => i < names@.len() && names.deep_view()[i as int] == key@,
            None => !contains_name(names.deep_view(), key@),
        },
{
    let owned: String = key.to_owned();
    let mut i: usize = 0;
    while i < names.len()
        invariant
            i <= names.len(),
            owned@ == key@,
            forall|k: int| 0 <= k < i ==> names.deep_view()[k] != key@,
        decreases names.len() - i,
    {
        if names[i] == owned {
            return Some(i);
        }
        i = i + 1;
    }
    None
}

/// Tests whether some name occurs twice.
pub(crate) fn has_duplicate(names: &Vec<String>) -> (r: bool)
    ensures
        r == !distinct_names(names.deep_view()),
{
    let mut i: usize = 0;
    while i < names.len()
        invariant
            i <= names.len(),
            forall|p: int, q: int| 0 <= p < q < i ==> names.deep_view()[p] != names.deep_view()[q],
        decreases names.len() - i,
    {
        let mut j: usize = 0;
        while j < i
            invariant
                j <= i,
                i < names.len(),
                forall|q: int| 0 <= q < j ==> names.deep_view()[q] != names.deep_view()[i as int],
            decreases i - j,
        {
            if names[j] == names[i] {
                proof {
                    assert(names.deep_view()[j as int] == names@[j as int]@);
                    assert(names.deep_view()[i as int] == names@[i as int]@);
                    assert(!distinct_names(names.deep_view()));
                }
                return true;
            }
            j = j + 1;
        }
        i = i + 1;
    }
    false
}

} // verus!
