use vstd::prelude::*;

verus! {

/// One row of the `todos` table.
pub struct Todo {
    pub id: u64,
    pub description: String,
    pub done: bool,
}

/// The mathematical value of a row.
pub ghost struct TodoModel {
    pub id: u64,
    pub description: Seq<char>,
    pub done: bool,
}

impl View for Todo {
    type V = TodoModel;

    open spec fn view(&self) -> TodoModel {
        TodoModel { id: self.id, description: self.description@, done: self.done }
    }
}

impl Todo {
    /// A copy of this row.
    pub fn duplicate(&self) -> (r: Todo)
        ensures
            r@ == self@,
    {
        Todo { id: self.id, description: self.description.clone(), done: self.done }
    }
}

/// Why a statement against the table failed.
#[derive(Debug, PartialEq, Eq, Structural)]
pub enum StorageError {
    /// Every identifier the table can assign has been handed out.
    IdsExhausted,
}

/// The value of a whole table: its rows in the order they were inserted, and
/// the last identifier it assigned (0 while none was).
pub ghost struct TableModel {
    pub rows: Seq<TodoModel>,
    pub last_id: u64,
}

/// The row with identifier `id` marked done; any other row as it is.
pub open spec fn mark_if(t: TodoModel, id: u64) -> TodoModel {
    if t.id == id {
        TodoModel { id: t.id, description: t.description, done: true }
    } else {
        t
    }
}

impl TableModel {
    /// The table's invariant: identifiers rise strictly along the rows, and
    /// each lies between 1 and the last one assigned.
    pub open spec fn wf(self) -> bool {
        &&& forall|i: int, j: int|
            0 <= i < j < self.rows.len() ==> #[trigger] self.rows[i].id < #[trigger] self.rows[j].id
        &&& forall|i: int| 0 <= i < self.rows.len() ==> 1 <= #[trigger] self.rows[i].id <= self.last_id
    }

    pub open spec fn contains_id(self, id: u64) -> bool {
        exists|i: int| 0 <= i < self.rows.len() && #[trigger] self.rows[i].id == id
    }

    /// A new row can still be given an identifier.
    pub open spec fn can_create(self) -> bool {
        self.last_id < u64::MAX
    }

    /// The identifier the next inserted row receives.
    pub open spec fn next_id(self) -> u64 {
        (self.last_id + 1) as u64
    }

    /// The table after inserting a pending row described by `d`.
    pub open spec fn after_create(self, d: Seq<char>) -> TableModel {
        TableModel {
            rows: self.rows.push(TodoModel { id: self.next_id(), description: d, done: false }),
            last_id: self.next_id(),
        }
    }

    /// The table after marking the row with identifier `id` done.
    pub open spec fn after_complete(self, id: u64) -> TableModel {
        TableModel { rows: self.rows.map_values(|t: TodoModel| mark_if(t, id)), last_id: self.last_id }
    }

    /// Rows in non-decreasing order of identifier.
    pub open spec fn ordered_by_id(self) -> bool {
        forall|i: int, j: int|
            0 <= i <= j < self.rows.len() ==> #[trigger] self.rows[i].id <= #[trigger] self.rows[j].id
    }
}

/// The `todos` table: rows with unique, rising identifiers that are never
/// reused, and a done flag that only ever goes from false to true.
pub struct TodoTable {
    rows: Vec<Todo>,
    last_id: u64,
}

impl View for TodoTable {
    type V = TableModel;

    closed spec fn view(&self) -> TableModel {
        TableModel { rows: self.rows@.map_values(|t: Todo| t@), last_id: self.last_id }
    }
}

pub proof fn lemma_create_keeps_wf(t: TableModel, d: Seq<char>)
    requires
        t.wf(),
        t.can_create(),
    ensures
        t.after_create(d).wf(),
{
    let n = t.after_create(d);
    assert forall|i: int, j: int| 0 <= i < j < n.rows.len() implies #[trigger] n.rows[i].id
        < #[trigger] n.rows[j].id by {
        if j < t.rows.len() {
            assert(t.rows[i].id < t.rows[j].id);
        } else {
            assert(t.rows[i].id <= t.last_id);
        }
    }
    assert forall|i: int| 0 <= i < n.rows.len() implies 1 <= #[trigger] n.rows[i].id
        <= n.last_id by {
        if i < t.rows.len() {
            assert(t.rows[i].id <= t.last_id);
        }
    }
}

pub proof fn lemma_complete_keeps_wf(t: TableModel, id: u64)
    requires
        t.wf(),
    ensures
        t.after_complete(id).wf(),
        t.after_complete(id).rows.len() == t.rows.len(),
        forall|i: int| 0 <= i < t.rows.len() ==> #[trigger] t.after_complete(id).rows[i].id == t.rows[i].id,
{
    let n = t.after_complete(id);
    assert forall|i: int, j: int| 0 <= i < j < n.rows.len() implies #[trigger] n.rows[i].id
        < #[trigger] n.rows[j].id by {
        assert(t.rows[i].id < t.rows[j].id);
    }
    assert forall|i: int| 0 <= i < n.rows.len() implies 1 <= #[trigger] n.rows[i].id
        <= n.last_id by {
        assert(n.rows[i].id == t.rows[i].id);
    }
}

impl TodoTable {
    pub open spec fn wf(&self) -> bool {
        self@.wf()
    }

    /// An empty table.
    pub fn new() -> (r: TodoTable)
        ensures
            r.wf(),
            r@.rows == Seq::<TodoModel>::empty(),
            r@.last_id == 0,
    {
        let r = TodoTable { rows: Vec::new(), last_id: 0 };
        assert(r@.rows =~= Seq::<TodoModel>::empty());
        r
    }

    /// Inserts a pending row described by `description` and returns the
    /// identifier assigned to it. Fails, leaving the table as it was, once
    /// every identifier has been assigned.
    pub fn create(&mut self, description: String) -> (r: Result<u64, StorageError>)
        requires
            old(self).wf(),
        ensures
            final(self).wf(),
            r is Ok <==> old(self)@.can_create(),
            r is Ok ==> r->Ok_0 == old(self)@.next_id() && final(self)@ == old(self)@.after_create(
                description@,
            ),
            r is Err ==> r->Err_0 == StorageError::IdsExhausted && final(self)@ == old(self)@,
    {
        if self.last_id == u64::MAX {
            return Err(StorageError::IdsExhausted);
        }
        let id = self.last_id + 1;
        proof {
            lemma_create_keeps_wf(self@, description@);
        }
        let ghost d = description@;
        self.rows.push(Todo { id, description, done: false });
        self.last_id = id;
        assert(self@.rows =~= old(self)@.after_create(d).rows);
        Ok(id)
    }

    /// Marks the row with identifier `id` done. Returns whether such a row
    /// exists; where none does, the table is left as it was.
    pub fn complete(&mut self, id: u64) -> (r: bool)
        requires
            old(self).wf(),
        ensures
            final(self).wf(),
            r == old(self)@.contains_id(id),
            final(self)@ == old(self)@.after_complete(id),
    {
        let ghost before = self@;
        let mut i: usize = 0;
        while i < self.rows.len()
            invariant
                self@ == before,
                before == old(self)@,
                before.wf(),
                0 <= i <= self.rows@.len(),
                forall|k: int| 0 <= k < i ==> #[trigger] before.rows[k].id != id,
            decreases self.rows@.len() - i,
        {
            if self.rows[i].id == id {
                assert(before.rows[i as int].id == id);
                let updated = Todo { id, description: self.rows[i].description.clone(), done: true };
                self.rows.set(i, updated);
                assert forall|k: int| 0 <= k < before.rows.len() && k != i implies #[trigger] before.rows[k].id != id by {
                    if k < i {
                        assert(before.rows[k].id < before.rows[i as int].id);
                    } else {
                        assert(before.rows[i as int].id < before.rows[k].id);
                    }
                }
                assert(self@.rows =~= before.after_complete(id).rows);
                proof {
                    lemma_complete_keeps_wf(before, id);
                }
                return true;
            }
            i += 1;
        }
        assert(self@.rows =~= before.after_complete(id).rows);
        proof {
            lemma_complete_keeps_wf(before, id);
        }
        false
    }

    /// Every row, in ascending order of identifier.
    pub fn list(&self) -> (r: Vec<Todo>)
        requires
            self.wf(),
        ensures
            r@.map_values(|t: Todo| t@) == self@.rows,
            self@.ordered_by_id(),
    {
        let mut out: Vec<Todo> = Vec::new();
        let mut i: usize = 0;
        while i < self.rows.len()
            invariant
                0 <= i <= self.rows@.len(),
                out@.map_values(|t: Todo| t@) == self@.rows.subrange(0, i as int),
            decreases self.rows@.len() - i,
        {
            let t = self.rows[i].duplicate();
            let ghost prev = out@;
            out.push(t);
            assert(self@.rows[i as int] == t@);
            assert(out@ == prev.push(t));
            assert(out@.map_values(|t: Todo| t@) =~= prev.map_values(|t: Todo| t@).push(t@));
            i += 1;
            assert(out@.map_values(|t: Todo| t@) =~= self@.rows.subrange(0, i as int));
        }
        assert(self@.rows.subrange(0, i as int) =~= self@.rows);
        proof {
            lemma_list_ordered(self@);
        }
        out
    }

    /// The row with identifier `id`, if there is one.
    pub fn get(&self, id: u64) -> (r: Option<Todo>)
        requires
            self.wf(),
        ensures
            r is Some <==> self@.contains_id(id),
            r is Some ==> r->Some_0.id == id && exists|i: int|
                0 <= i < self@.rows.len() && self@.rows[i] == r->Some_0@,
    {
        let mut i: usize = 0;
        while i < self.rows.len()
            invariant
                0 <= i <= self.rows@.len(),
                forall|k: int| 0 <= k < i ==> #[trigger] self@.rows[k].id != id,
            decreases self.rows@.len() - i,
        {
            if self.rows[i].id == id {
                let t = self.rows[i].duplicate();
                assert(self@.rows[i as int] == t@);
                assert(self@.rows[i as int].id == id);
                return Some(t);
            }
            i += 1;
        }
        None
    }
}

/// Listing a well-formed table yields its rows in non-decreasing order of
/// identifier.
pub proof fn lemma_list_ordered(t: TableModel)
    requires
        t.wf(),
    ensures
        t.ordered_by_id(),
{
    assert forall|i: int, j: int| 0 <= i <= j < t.rows.len() implies #[trigger] t.rows[i].id
        <= #[trigger] t.rows[j].id by {
        if i < j {
            assert(t.rows[i].id < t.rows[j].id);
        }
    }
}

} // verus!
