//! The naming capability shared by every level of the hierarchy, and the
//! identity path that its segments form.

use vstd::prelude::*;

verus! {

/// The segments of `segments` that are not empty, in order, with `separator`
/// between each two of them.
pub open spec fn join_segments(segments: Seq<Seq<char>>, separator: Seq<char>) -> Seq<char>
    decreases segments.len(),
{
    if segments.len() == 0 {
        Seq::empty()
    } else {
        let front = join_segments(segments.drop_last(), separator);
        let last = segments.last();
        if last.len() == 0 {
            front
        } else if front.len() == 0 {
            last
        } else {
            front + separator + last
        }
    }
}

/// The separator of the dotted identity path.
pub open spec fn identity_separator() -> Seq<char> {
    seq!['.']
}

/// The identity path of a unit whose ancestors are named `parents`, from the
/// root down, and whose own segment is `basename`.
pub open spec fn identity_path_of(parents: Seq<Seq<char>>, basename: Seq<char>) -> Seq<char> {
    join_segments(parents.push(basename), identity_separator())
}

/// A unit of the naming hierarchy: it knows its own segment and the segments
/// of its ancestors.
pub trait MetricsRegistry {
    /// The unit's own segment.
    spec fn basename_spec(&self) -> Seq<char>;

    /// The segments of the unit's ancestors, from the root to its parent.
    spec fn parent_hierarchy_spec(&self) -> Seq<Seq<char>>;

    fn basename(&self) -> (name: String)
        ensures
            name@ == self.basename_spec(),
    ;

    fn parent_hierarchy(&self) -> (names: Vec<String>)
        ensures
            names.deep_view() == self.parent_hierarchy_spec(),
    ;
}

/// Joins the non-empty segments of `segments` with `separator`.
pub fn join_path(segments: &Vec<String>, separator: &str) -> (path: String)
    ensures
        path@ == join_segments(segments.deep_view(), separator@),
{
    let ghost all = segments.deep_view();
    let mut path = String::new();
    let mut i: usize = 0;
    while i < segments.len()
        invariant
            i <= segments.len(),
            all == segments.deep_view(),
            path@ == join_segments(all.take(i as int), separator@),
        decreases segments.len() - i,
    {
        let segment = segments[i].as_str();
        proof {
            assert(all.take(i + 1).drop_last() =~= all.take(i as int));
            assert(all.take(i + 1).last() == segment@);
        }
        if !segment.is_empty() {
            if !path.as_str().is_empty() {
                path.append(separator);
            }
            path.append(segment);
        }
        i += 1;
    }
    proof {
        assert(all.take(segments.len() as int) =~= all);
    }
    path
}

/// The dotted identity path of `unit`: the non-empty segments of its ancestors
/// and its own, joined with `.`.
pub fn identity_path<R: MetricsRegistry>(unit: &R) -> (path: String)
    ensures
        path@ == identity_path_of(unit.parent_hierarchy_spec(), unit.basename_spec()),
{
    let mut segments = unit.parent_hierarchy();
    let ghost parents = segments.deep_view();
    segments.push(unit.basename());
    proof {
        reveal_strlit(".");
        assert(segments.deep_view() =~= parents.push(unit.basename_spec()));
        assert("."@ =~= identity_separator());
    }
    join_path(&segments, ".")
}

} // verus!
