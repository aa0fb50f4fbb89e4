use vstd::prelude::*;
use vstd::string::*;
use crate::task::{TaskModel, TaskRow};
use crate::statement::{Assignment, Change, Statement};

verus! {

/// The contents of the `tasks` table: its rows in ascending id order, and
/// the id that the next insert is given.
pub struct TableModel {
    pub rows: Seq<TaskModel>,
    pub next_id: int,
}

/// A task after one change.
pub open spec fn apply_change(t: TaskModel, c: Change) -> TaskModel {
    match c {
        Change::Name(n) => TaskModel { name: n, ..t },
        Change::Priority(p) => TaskModel { priority: Some(p), ..t },
    }
}

/// A task after the changes `cs`, in order.
pub open spec fn apply_changes(t: TaskModel, cs: Seq<Change>) -> TaskModel
    decreases cs.len(),
{
    if cs.len() == 0 {
        t
    } else {
        apply_change(apply_changes(t, cs.drop_last()), cs.last())
    }
}

/// The changes that a statement's assignments make.
pub open spec fn changes_view(changes: Seq<Assignment>) -> Seq<Change> {
    changes.map_values(|a: Assignment| a@)
}

impl TableModel {
    /// Ids ascend strictly, every id lies below `next_id`, and `next_id` is
    /// a positive id or one past the largest.
    pub open spec fn wf(self) -> bool {
        &&& forall|i: int, j: int|
            0 <= i < j < self.rows.len() ==> self.rows[i].task_id < self.rows[j].task_id
        &&& forall|i: int| 0 <= i < self.rows.len() ==> self.rows[i].task_id < self.next_id
        &&& 1 <= self.next_id <= i32::MAX + 1
    }

    /// The empty table.
    pub open spec fn empty() -> TableModel {
        TableModel { rows: Seq::empty(), next_id: 1 }
    }

    /// Some row has the id `id`.
    pub open spec fn has(self, id: i32) -> bool {
        exists|i: int| 0 <= i < self.rows.len() && self.rows[i].task_id == id
    }

    /// The position of the row with the id `id`.
    pub open spec fn index_of(self, id: i32) -> int {
        choose|i: int| 0 <= i < self.rows.len() && self.rows[i].task_id == id
    }

    /// The row with the id `id`, if there is one.
    pub open spec fn lookup(self, id: i32) -> Option<TaskModel> {
        if self.has(id) {
            Some(self.rows[self.index_of(id)])
        } else {
            None
        }
    }

    /// An id is left for one more row.
    pub open spec fn can_insert(self) -> bool {
        self.next_id <= i32::MAX
    }

    /// The table after a row with `name` and `priority` is inserted.
    pub open spec fn inserted(self, name: Seq<char>, priority: Option<i32>) -> TableModel {
        TableModel {
            rows: self.rows.push(TaskModel { task_id: self.next_id as i32, name, priority }),
            next_id: self.next_id + 1,
        }
    }

    /// The table after the row `id`, if present, takes the changes `cs`.
    pub open spec fn updated(self, id: i32, cs: Seq<Change>) -> TableModel {
        if self.has(id) {
            let i = self.index_of(id);
            TableModel {
                rows: self.rows.update(i, apply_changes(self.rows[i], cs)),
                next_id: self.next_id,
            }
        } else {
            self
        }
    }

    /// The table after the row `id`, if present, is removed.
    pub open spec fn deleted(self, id: i32) -> TableModel {
        if self.has(id) {
            TableModel { rows: self.rows.remove(self.index_of(id)), next_id: self.next_id }
        } else {
            self
        }
    }

    /// The rows that a select statement reads: all of them, or the one
    /// with the id asked for.
    pub open spec fn selected(self, s: Statement) -> Seq<TaskModel> {
        match s {
            Statement::SelectById { task_id } => match self.lookup(task_id) {
                Some(t) => seq![t],
                None => Seq::empty(),
            },
            _ => self.rows,
        }
    }

    /// The statement fails: an insert with no id left.
    pub open spec fn fails(self, s: Statement) -> bool {
        s is Insert && !self.can_insert()
    }

    /// The table after a statement that does not fail.
    pub open spec fn effect(self, s: Statement) -> TableModel {
        match s {
            Statement::Insert { name, priority } => self.inserted(name@, priority),
            Statement::Update { task_id, changes } => self.updated(
                task_id,
                changes_view(changes@),
            ),
            Statement::Delete { task_id } => self.deleted(task_id),
            _ => self,
        }
    }
}

/// In a well-formed table the row with a given id is the one that
/// `lookup` finds.
pub proof fn lemma_row_of_id(t: TableModel, k: int)
    requires
        t.wf(),
        0 <= k < t.rows.len(),
    ensures
        t.has(t.rows[k].task_id),
        t.index_of(t.rows[k].task_id) == k,
        t.lookup(t.rows[k].task_id) == Some(t.rows[k]),
{
    let id = t.rows[k].task_id;
    assert(0 <= k < t.rows.len() && t.rows[k].task_id == id);
    let i = t.index_of(id);
    if i < k {
        assert(t.rows[i].task_id < t.rows[k].task_id);
    } else if i > k {
        assert(t.rows[k].task_id < t.rows[i].task_id);
    }
}

/// A table held in memory, with the meaning that the SQL table has.
pub struct MemoryTable {
    rows: Vec<TaskRow>,
    next_id: i64,
}

impl View for MemoryTable {
    type V = TableModel;

    closed spec fn view(&self) -> TableModel {
        TableModel {
            rows: self.rows@.map_values(|t: TaskRow| t@),
            next_id: self.next_id as int,
        }
    }
}

impl MemoryTable {
    /// The table's own invariant.
    pub closed spec fn wf(&self) -> bool {
        self@.wf()
    }

    /// An empty table.
    pub fn new() -> (r: MemoryTable)
        ensures
            r.wf(),
            r@ == TableModel::empty(),
    {
        let r = MemoryTable { rows: Vec::new(), next_id: 1 };
        proof {
            assert(r@.rows =~= Seq::<TaskModel>::empty());
        }
        r
    }

    fn find(&self, id: i32) -> (r: Option<usize>)
        requires
            self.wf(),
        ensures
            r is None <==> !self@.has(id),
            r matches Some(i) ==> i < self.rows.len() && i as int == self@.index_of(id),
    {
        let mut i: usize = 0;
        while i < self.rows.len()
            invariant
                self.wf(),
                i <= self.rows.len(),
                forall|j: int| 0 <= j < i ==> self@.rows[j].task_id != id,
            decreases self.rows.len() - i,
        {
            if self.rows[i].task_id == id {
                proof {
                    assert(self@.rows[i as int] == self.rows@[i as int]@);
                    lemma_row_of_id(self@, i as int);
                }
                return Some(i);
            }
            i = i + 1;
        }
        None
    }

    /// The rows that the select statement `s` reads, in ascending id order.
    pub fn fetch_all(&self, s: &Statement) -> (r: Result<Vec<TaskRow>, String>)
        requires
            self.wf(),
            s is SelectAll || s is SelectById,
        ensures
            r matches Ok(v) && v@.map_values(|t: TaskRow| t@) == self@.selected(*s),
    {
        let mut out: Vec<TaskRow> = Vec::new();
        match s {
            Statement::SelectById { task_id } => {
                match self.find(*task_id) {
                    Some(i) => out.push(self.rows[i].duplicate()),
                    None => {},
                }
            },
            _ => {
                let mut i: usize = 0;
                while i < self.rows.len()
                    invariant
                        i <= self.rows.len(),
                        out@.len() == i,
                        forall|j: int| 0 <= j < i ==> out@[j]@ == #[trigger] self.rows@[j]@,
                    decreases self.rows.len() - i,
                {
                    out.push(self.rows[i].duplicate());
                    i = i + 1;
                }
            },
        }
        proof {
            assert(out@.map_values(|t: TaskRow| t@) =~= self@.selected(*s));
        }
        Ok(out)
    }

    /// The first row that the select statement `s` reads, if any.
    pub fn fetch_optional(&self, s: &Statement) -> (r: Result<Option<TaskRow>, String>)
        requires
            self.wf(),
            s is SelectAll || s is SelectById,
        ensures
            r matches Ok(o) && match o {
                Some(t) => self@.selected(*s).len() > 0 && t@ == self@.selected(*s)[0],
                None => self@.selected(*s).len() == 0,
            },
    {
        match s {
            Statement::SelectById { task_id } => match self.find(*task_id) {
                Some(i) => Ok(Some(self.rows[i].duplicate())),
                None => Ok(None),
            },
            _ => {
                if self.rows.len() == 0 {
                    Ok(None)
                } else {
                    Ok(Some(self.rows[0].duplicate()))
                }
            },
        }
    }

    /// Runs the statement `s`. Returns the id that an insert assigned, and
    /// 0 for other statements; fails only on an insert with no id left.
    pub fn execute(&mut self, s: &Statement) -> (r: Result<u64, String>)
        requires
            old(self).wf(),
        ensures
            final(self).wf(),
            r is Err <==> old(self)@.fails(*s),
            r is Err ==> final(self)@ == old(self)@,
            r is Ok ==> final(self)@ == old(self)@.effect(*s),
            r matches Ok(id) ==> id == if s is Insert {
                old(self)@.next_id
            } else {
                0
            },
    {
        match s {
            Statement::Insert { name, priority } => {
                if self.next_id > i32::MAX as i64 {
                    return Err(String::from_str("no task id is left for a new row"));
                }
                let id = self.next_id;
                let ghost before = self@;
                self.rows.push(TaskRow { task_id: id as i32, name: name.clone(), priority: *priority });
                self.next_id = id + 1;
                proof {
                    assert(self@.rows =~= before.inserted(name@, *priority).rows);
                }
                Ok(id as u64)
            },
            Statement::Update { task_id, changes } => {
                match self.find(*task_id) {
                    Some(i) => {
                        let ghost before = self@;
                        let mut row = self.rows[i].duplicate();
                        apply_assignments(&mut row, changes);
                        proof {
                            lemma_apply_keeps_id(before.rows[i as int], changes_view(changes@));
                        }
                        self.rows.set(i, row);
                        proof {
                            assert(self@.rows =~= before.updated(*task_id, changes_view(changes@)).rows);
                        }
                    },
                    None => {},
                }
                Ok(0)
            },
            Statement::Delete { task_id } => {
                match self.find(*task_id) {
                    Some(i) => {
                        let ghost before = self@;
                        self.rows.remove(i);
                        proof {
                            assert(self@.rows =~= before.deleted(*task_id).rows);
                        }
                    },
                    None => {},
                }
                Ok(0)
            },
            _ => Ok(0),
        }
    }
}

/// Changes never touch the id.
pub proof fn lemma_apply_keeps_id(t: TaskModel, cs: Seq<Change>)
    ensures
        apply_changes(t, cs).task_id == t.task_id,
    decreases cs.len(),
{
    if cs.len() > 0 {
        lemma_apply_keeps_id(t, cs.drop_last());
    }
}

/// Applies `changes` to `row`, in order.
fn apply_assignments(row: &mut TaskRow, changes: &Vec<Assignment>)
    ensures
        final(row)@ == apply_changes(old(row)@, changes_view(changes@)),
{
    let ghost start = row@;
    let ghost cs = changes_view(changes@);
    let mut i: usize = 0;
    while i < changes.len()
        invariant
            i <= changes.len(),
            cs == changes_view(changes@),
            row@ == apply_changes(start, cs.subrange(0, i as int)),
        decreases changes.len() - i,
    {
        proof {
            let next = cs.subrange(0, i + 1);
            assert(next.drop_last() =~= cs.subrange(0, i as int));
            assert(next.last() == changes@[i as int]@);
        }
        match &changes[i] {
            Assignment::Name(n) => {
                row.name = n.clone();
            },
            Assignment::Priority(p) => {
                row.priority = Some(*p);
            },
        }
        i = i + 1;
    }
    proof {
        assert(cs.subrange(0, i as int) =~= cs);
    }
}

} // verus!
