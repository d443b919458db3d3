//! Selecting among rows in stored order.

use vstd::prelude::*;

verus! {

/// The place of the first row that is wanted, if any row is.
pub open spec fn first_where<T>(rows: Seq<T>, wanted: spec_fn(T) -> bool) -> Option<int>
    decreases rows.len(),
{
    if rows.len() == 0 {
        None
    } else if wanted(rows[0]) {
        Some(0)
    } else {
        match first_where(rows.drop_first(), wanted) {
            Some(i) => Some(i + 1),
            None => None,
        }
    }
}

/// The first row that is wanted, if any row is.
pub open spec fn first_row<T>(rows: Seq<T>, wanted: spec_fn(T) -> bool) -> Option<T> {
    match first_where(rows, wanted) {
        Some(i) => Some(rows[i]),
        None => None,
    }
}

/// `first_where` names a wanted row that no wanted row precedes, and names
/// none only where no row is wanted.
pub proof fn lemma_first_where<T>(rows: Seq<T>, wanted: spec_fn(T) -> bool)
    ensures
        match first_where(rows, wanted) {
            Some(i) => {
                &&& 0 <= i < rows.len()
                &&& wanted(rows[i])
                &&& forall|j: int| 0 <= j < i ==> !wanted(#[trigger] rows[j])
            },
            None => forall|j: int| 0 <= j < rows.len() ==> !wanted(#[trigger] rows[j]),
        },
    decreases rows.len(),
{
    if rows.len() > 0 && !wanted(rows[0]) {
        let rest = rows.drop_first();
        lemma_first_where(rest, wanted);
        match first_where(rest, wanted) {
            Some(i) => {
                assert forall|j: int| 0 <= j < i + 1 implies !wanted(#[trigger] rows[j]) by {
                    if j > 0 {
                        assert(rows[j] == rest[j - 1]);
                    }
                }
            },
            None => {
                assert forall|j: int| 0 <= j < rows.len() implies !wanted(#[trigger] rows[j]) by {
                    if j > 0 {
                        assert(rows[j] == rest[j - 1]);
                    }
                }
            },
        }
    }
}

/// A wanted row that no wanted row precedes is the one `first_where` names.
pub proof fn lemma_first_where_is<T>(rows: Seq<T>, wanted: spec_fn(T) -> bool, at: int)
    requires
        0 <= at < rows.len(),
        wanted(rows[at]),
        forall|j: int| 0 <= j < at ==> !wanted(#[trigger] rows[j]),
    ensures
        first_where(rows, wanted) == Some(at),
{
    lemma_first_where(rows, wanted);
}

/// Where no row is wanted, `first_where` names none.
pub proof fn lemma_first_where_none<T>(rows: Seq<T>, wanted: spec_fn(T) -> bool)
    requires
        forall|j: int| 0 <= j < rows.len() ==> !wanted(#[trigger] rows[j]),
    ensures
        first_where(rows, wanted) is None,
{
    lemma_first_where(rows, wanted);
}

/// Selecting among one row more selects that row too, or nothing more.
pub proof fn lemma_filter_step<T>(rows: Seq<T>, wanted: spec_fn(T) -> bool, upto: int)
    requires
        0 <= upto < rows.len(),
    ensures
        rows.take(upto + 1).filter(wanted) == if wanted(rows[upto]) {
            rows.take(upto).filter(wanted).push(rows[upto])
        } else {
            rows.take(upto).filter(wanted)
        },
{
    reveal(Seq::filter);
    assert(rows.take(upto + 1).drop_last() == rows.take(upto));
}

/// Selecting among no rows selects none.
pub proof fn lemma_filter_none<T>(rows: Seq<T>, wanted: spec_fn(T) -> bool)
    ensures
        rows.take(0).filter(wanted) == Seq::<T>::empty(),
{
    reveal(Seq::filter);
}

} // verus!
