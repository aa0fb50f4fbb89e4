use vstd::prelude::*;
use crate::task::{CreateTaskReq, TaskModel, UpdateTaskReq};
use crate::statement::{changes_of, req_name, Change, Statement};
use crate::table::{apply_changes, lemma_apply_keeps_id, lemma_row_of_id, TableModel};
use crate::json::{created_text, data_text, failure_text, success_text, task_text, tasks_text};
use crate::handlers::{
    create_reply, done_reply, failure_reply, get_reply, list_reply, no_rows_message, Reply, CREATED,
    INTERNAL_SERVER_ERROR, OK,
};

verus! {

/// Creating a task answers 201 with the id it was given; the task is then
/// in the listing, and a read by that id answers 200 with its name and
/// priority.
pub proof fn law_created_task_is_listed_and_found(t: TableModel, req: CreateTaskReq, s: Statement)
    requires
        t.wf(),
        t.can_insert(),
        s matches Statement::Insert { name, priority } && name@ == req.name@ && priority
            == req.priority,
    ensures
        !t.fails(s),
        ({
            let id = t.next_id as i32;
            let row = TaskModel { task_id: id, name: req.name@, priority: req.priority };
            let after = t.effect(s);
            &&& after.wf()
            &&& create_reply(Ok(t.next_id as u64)) == (Reply {
                status: CREATED,
                body: data_text(created_text(t.next_id as nat)),
            })
            &&& after.selected(Statement::SelectAll).contains(row)
            &&& after.lookup(id) == Some(row)
            &&& get_reply(Ok(after.lookup(id))) == (Reply {
                status: OK,
                body: data_text(task_text(row)),
            })
        }),
{
    let id = t.next_id as i32;
    let row = TaskModel { task_id: id, name: req.name@, priority: req.priority };
    let after = t.effect(s);
    assert(after.rows == t.rows.push(row));
    let k = t.rows.len() as int;
    assert(after.rows[k] == row);
    assert(after.wf());
    lemma_row_of_id(after, k);
}

/// Listing an empty table answers 200 with an empty array.
pub proof fn law_empty_listing()
    ensures
        list_reply(Ok(TableModel::empty().selected(Statement::SelectAll))) == (Reply {
            status: OK,
            body: data_text("[]"@),
        }),
{
    reveal_strlit("[");
    reveal_strlit("]");
    reveal_strlit("[]");
    let rows = TableModel::empty().selected(Statement::SelectAll);
    assert(rows.len() == 0);
    assert(tasks_text(rows) =~= "[]"@);
}

/// An update that sets only the name keeps the priority, and one that sets
/// only the priority keeps the name; a missing row stays missing.
pub proof fn law_partial_update_keeps_other_field(t: TableModel, id: i32, req: UpdateTaskReq)
    requires
        t.wf(),
        req.name is Some || req.priority is Some,
    ensures
        ({
            let after = t.updated(id, changes_of(req_name(&req), req.priority));
            &&& after.wf()
            &&& match t.lookup(id) {
                None => after.lookup(id) is None,
                Some(before) => after.lookup(id) matches Some(now) && now.task_id == id
                    && (req.priority is None ==> now.priority == before.priority)
                    && (req.name is None ==> now.name == before.name)
                    && (req.name matches Some(n) ==> now.name == n@)
                    && (req.priority matches Some(p) ==> now.priority == Some(p)),
            }
        }),
{
    let cs = changes_of(req_name(&req), req.priority);
    let after = t.updated(id, cs);
    if t.has(id) {
        let i = t.index_of(id);
        let before = t.rows[i];
        assert(before.task_id == id);
        let now = apply_changes(before, cs);
        lemma_apply_keeps_id(before, cs);
        assert(after.rows[i] == now);
        assert(after.wf());
        lemma_row_of_id(after, i);
        match (req.name, req.priority) {
            (Some(n), None) => {
                assert(cs =~= seq![Change::Name(n@)]);
                assert(cs.drop_last() =~= Seq::<Change>::empty());
                assert(now == TaskModel { name: n@, ..before });
            },
            (None, Some(p)) => {
                assert(cs =~= seq![Change::Priority(p)]);
                assert(cs.drop_last() =~= Seq::<Change>::empty());
                assert(now == TaskModel { priority: Some(p), ..before });
            },
            (Some(n), Some(p)) => {
                assert(cs =~= seq![Change::Name(n@), Change::Priority(p)]);
                assert(cs.drop_last() =~= seq![Change::Name(n@)]);
                assert(cs.drop_last().drop_last() =~= Seq::<Change>::empty());
                assert(apply_changes(before, cs.drop_last()) == TaskModel { name: n@, ..before });
                assert(now == TaskModel { name: n@, priority: Some(p), ..before });
            },
            (None, None) => {},
        }
    }
}

/// Deleting an id that no row has leaves the table as it was and answers
/// 200 with the success envelope.
pub proof fn law_delete_missing_succeeds(t: TableModel, id: i32)
    requires
        t.wf(),
        !t.has(id),
    ensures
        !t.fails(Statement::Delete { task_id: id }),
        t.effect(Statement::Delete { task_id: id }) == t,
        done_reply(Ok(0)) == (Reply { status: OK, body: success_text() }),
{
}

/// After the row with an id is deleted, a read by that id answers 500.
pub proof fn law_deleted_task_is_gone(t: TableModel, id: i32)
    requires
        t.wf(),
    ensures
        ({
            let after = t.effect(Statement::Delete { task_id: id });
            &&& after.wf()
            &&& !after.has(id)
            &&& get_reply(Ok(after.lookup(id))) == failure_reply(no_rows_message())
        }),
{
    let after = t.effect(Statement::Delete { task_id: id });
    if t.has(id) {
        let i = t.index_of(id);
        assert(t.rows[i].task_id == id);
        assert forall|j: int| 0 <= j < after.rows.len() implies after.rows[j].task_id != id by {
            if j < i {
                assert(after.rows[j] == t.rows[j]);
            } else {
                assert(after.rows[j] == t.rows[j + 1]);
            }
        }
        assert forall|a: int, b: int| 0 <= a < b < after.rows.len() implies after.rows[a].task_id
            < after.rows[b].task_id by {
            let a2 = if a < i { a } else { a + 1 };
            let b2 = if b < i { b } else { b + 1 };
            assert(after.rows[a] == t.rows[a2]);
            assert(after.rows[b] == t.rows[b2]);
        }
        assert forall|j: int| 0 <= j < after.rows.len() implies after.rows[j].task_id
            < after.next_id by {
            let j2 = if j < i { j } else { j + 1 };
            assert(after.rows[j] == t.rows[j2]);
        }
    }
}

/// A read by an id that no row has answers 500, with the message of a
/// query that found no row.
pub proof fn law_get_missing_is_internal_error(t: TableModel, id: i32)
    requires
        !t.has(id),
    ensures
        get_reply(Ok(t.lookup(id))) == (Reply {
            status: INTERNAL_SERVER_ERROR,
            body: failure_text(no_rows_message()),
        }),
{
}

} // verus!
