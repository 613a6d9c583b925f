//! What the host's type inference says of an expression, and the test for
//! `Result`.

use crate::text::text_eq;
use vstd::prelude::*;

verus! {

/// The host's answer to the question which type an expression has.
#[derive(Debug, PartialEq, Eq)]
pub enum TypeDescriptor {
    /// The host has not resolved the type, or could not.
    Unresolved,
    /// A struct, enum or union, named by the path of its definition, one
    /// segment per element, from the crate down to the type.
    Adt { def_path: Vec<String> },
    /// Any other type: a reference, a tuple, a primitive, a parameter.
    Other,
}

/// The definition path of `core::result::Result`, the one type that the
/// lint takes for a success/error sum type.
pub open spec fn result_path() -> Seq<Seq<char>> {
    seq!["core"@, "result"@, "Result"@]
}

/// The segments of a path that is held as owned strings, as texts.
pub open spec fn segments(path: Seq<String>) -> Seq<Seq<char>> {
    path.map_values(|segment: String| segment@)
}

/// The segments of a path that is held as string slices, as texts.
pub open spec fn str_segments(path: Seq<&str>) -> Seq<Seq<char>> {
    path.map_values(|segment: &str| segment@)
}

impl TypeDescriptor {
    /// Whether the type is a struct, enum or union defined at `path`.
    pub open spec fn has_path(&self, path: Seq<Seq<char>>) -> bool {
        match self {
            TypeDescriptor::Adt { def_path } => segments(def_path@) == path,
            _ => false,
        }
    }

    /// Whether the type is `Result`. An unresolved type is not.
    pub open spec fn is_result(&self) -> bool {
        self.has_path(result_path())
    }

    /// Whether the type is a struct, enum or union defined at `path`.
    pub fn matches_path(&self, path: &[&str]) -> (matches: bool)
        ensures
            matches == self.has_path(str_segments(path@)),
    {
        match self {
            TypeDescriptor::Adt { def_path } => same_path(def_path, path),
            _ => false,
        }
    }
}

/// Whether two paths are the same: they have the same number of segments and
/// agree segment by segment.
pub fn same_path(left: &Vec<String>, right: &[&str]) -> (same: bool)
    ensures
        same == (segments(left@) == str_segments(right@)),
{
    if left.len() != right.len() {
        assert(segments(left@).len() != str_segments(right@).len());
        return false;
    }
    let mut i: usize = 0;
    while i < left.len()
        invariant
            left.len() == right.len(),
            i <= left.len(),
            forall|k: int| 0 <= k < i ==> left@[k]@ == right@[k]@,
        decreases left.len() - i,
    {
        if !text_eq(left[i].as_str(), right[i]) {
            assert(segments(left@)[i as int] != str_segments(right@)[i as int]);
            return false;
        }
        i += 1;
    }
    assert(segments(left@) =~= str_segments(right@));
    true
}

/// Whether `ty` is `Result`. The lint asks this of the receiver of `ok()`:
/// any type may have a method of that name, and only on a `Result` is the
/// rewrite sound. Where the host could not tell the type, the answer is no.
pub fn is_result_type(ty: &TypeDescriptor) -> (yes: bool)
    ensures
        yes == ty.is_result(),
{
    let path: [&str; 3] = ["core", "result", "Result"];
    assert(str_segments(path@) =~= result_path());
    ty.matches_path(&path)
}

} // verus!
