use vstd::prelude::*;
use crate::table::{TableModel, lemma_list_ordered};

verus! {

/// Completing the identifier that a create has just returned succeeds:
/// the new row exists in the table the create left behind.
pub proof fn law_complete_after_create(t: TableModel, d: Seq<char>)
    requires
        t.wf(),
        t.can_create(),
    ensures
        t.after_create(d).contains_id(t.next_id()),
{
    let n = t.after_create(d);
    assert(n.rows[t.rows.len() as int].id == t.next_id());
}

/// Completing an identifier that no row has reports false and leaves every
/// row as it was.
pub proof fn law_complete_missing_is_noop(t: TableModel, x: u64)
    requires
        !t.contains_id(x),
    ensures
        t.after_complete(x) == t,
{
    assert forall|i: int| 0 <= i < t.rows.len() implies #[trigger] t.after_complete(x).rows[i]
        == t.rows[i] by {
        assert(t.rows[i].id != x);
    }
    assert(t.after_complete(x).rows =~= t.rows);
}

/// Listing returns the rows in non-decreasing order of identifier, in every
/// table that creates and completes can produce.
pub proof fn law_list_ordered(t: TableModel)
    requires
        t.wf(),
    ensures
        t.ordered_by_id(),
{
    lemma_list_ordered(t);
}

/// Completing an existing identifier twice reports true both times, the row
/// stays done, and the second call changes nothing.
pub proof fn law_complete_idempotent(t: TableModel, id: u64)
    requires
        t.contains_id(id),
    ensures
        t.after_complete(id).contains_id(id),
        t.after_complete(id).after_complete(id) == t.after_complete(id),
        forall|i: int|
            0 <= i < t.rows.len() && t.rows[i].id == id ==> #[trigger] t.after_complete(id).rows[i].done,
{
    let once = t.after_complete(id);
    let i = choose|i: int| 0 <= i < t.rows.len() && #[trigger] t.rows[i].id == id;
    assert(once.rows[i].id == id);
    assert forall|k: int| 0 <= k < once.rows.len() implies #[trigger] once.after_complete(id).rows[k]
        == once.rows[k] by {
        if t.rows[k].id == id {
            assert(once.rows[k].done);
        }
    }
    assert(once.after_complete(id).rows =~= once.rows);
}

/// A create followed by a listing shows exactly one more row than before:
/// the earlier rows unchanged, then one with the given description, not done.
pub proof fn law_create_then_list(t: TableModel, d: Seq<char>)
    requires
        t.wf(),
        t.can_create(),
    ensures
        t.after_create(d).rows.len() == t.rows.len() + 1,
        t.after_create(d).rows.subrange(0, t.rows.len() as int) == t.rows,
        t.after_create(d).rows.last().description == d,
        !t.after_create(d).rows.last().done,
{
    assert(t.after_create(d).rows.subrange(0, t.rows.len() as int) =~= t.rows);
}

} // verus!
