use vstd::prelude::*;
use vstd::string::*;
use crate::task::{TaskModel, TaskRow, UpdateTaskReq};
use crate::json::{
    created_json, created_text, data_json, data_text, failure_json, failure_text, success_json,
    success_text, task_json, task_text, tasks_json, tasks_text,
};
use crate::statement::{update_statement, changes_of, req_name, Assignment, Statement};

verus! {

/// The request succeeded.
pub const OK: u16 = 200;

/// The request created a task.
pub const CREATED: u16 = 201;

/// The request asked for nothing that can be done.
pub const BAD_REQUEST: u16 = 400;

/// Storage failed, or found no row where one was expected.
pub const INTERNAL_SERVER_ERROR: u16 = 500;

/// The message of a read by id that found no row.
pub open spec fn no_rows_message() -> Seq<char> {
    "no rows returned by a query that expected to return at least one row"@
}

/// An HTTP response: a status code and a JSON body.
pub struct Response {
    pub status: u16,
    pub body: String,
}

/// A response as the contracts see it.
pub struct Reply {
    pub status: u16,
    pub body: Seq<char>,
}

impl View for Response {
    type V = Reply;

    open spec fn view(&self) -> Reply {
        Reply { status: self.status, body: self.body@ }
    }
}

/// The reply to a storage failure with the error text `message`.
pub open spec fn failure_reply(message: Seq<char>) -> Reply {
    Reply { status: INTERNAL_SERVER_ERROR, body: failure_text(message) }
}

/// The reply to a listing, from the rows read or the storage error.
pub open spec fn list_reply(result: Result<Seq<TaskModel>, Seq<char>>) -> Reply {
    match result {
        Ok(rows) => Reply { status: OK, body: data_text(tasks_text(rows)) },
        Err(e) => failure_reply(e),
    }
}

/// The reply to a read by id, from the row found (if any) or the storage
/// error. A missing row is reported as a storage failure.
pub open spec fn get_reply(result: Result<Option<TaskModel>, Seq<char>>) -> Reply {
    match result {
        Ok(Some(t)) => Reply { status: OK, body: data_text(task_text(t)) },
        Ok(None) => failure_reply(no_rows_message()),
        Err(e) => failure_reply(e),
    }
}

/// The reply to a create, from the id assigned or the storage error.
pub open spec fn create_reply(result: Result<u64, Seq<char>>) -> Reply {
    match result {
        Ok(id) => Reply { status: CREATED, body: data_text(created_text(id as nat)) },
        Err(e) => failure_reply(e),
    }
}

/// The reply to an update or a delete that reached storage.
pub open spec fn done_reply(result: Result<u64, Seq<char>>) -> Reply {
    match result {
        Ok(_) => Reply { status: OK, body: success_text() },
        Err(e) => failure_reply(e),
    }
}

/// The reply to an update that names no field.
pub open spec fn nothing_to_update_reply() -> Reply {
    Reply {
        status: BAD_REQUEST,
        body: "{\"message\":\"Nothing to update\",\"success\":false}"@,
    }
}

/// The rows of a read, as the contracts see them.
pub open spec fn rows_result(result: Result<Vec<TaskRow>, String>) -> Result<
    Seq<TaskModel>,
    Seq<char>,
> {
    match result {
        Ok(v) => Ok(v@.map_values(|t: TaskRow| t@)),
        Err(e) => Err(e@),
    }
}

/// The row of a read by id, as the contracts see it.
pub open spec fn row_result(result: Result<Option<TaskRow>, String>) -> Result<
    Option<TaskModel>,
    Seq<char>,
> {
    match result {
        Ok(Some(t)) => Ok(Some(t@)),
        Ok(None) => Ok(None),
        Err(e) => Err(e@),
    }
}

/// The outcome of a statement that writes, as the contracts see it.
pub open spec fn write_result(result: Result<u64, String>) -> Result<u64, Seq<char>> {
    match result {
        Ok(id) => Ok(id),
        Err(e) => Err(e@),
    }
}

/// The 500 response that carries a storage error.
pub fn failure_response(message: &str) -> (r: Response)
    ensures
        r@ == failure_reply(message@),
{
    Response { status: INTERNAL_SERVER_ERROR, body: failure_json(message) }
}

/// The response to a listing.
pub fn list_response(result: Result<Vec<TaskRow>, String>) -> (r: Response)
    ensures
        r@ == list_reply(rows_result(result)),
{
    match result {
        Ok(rows) => Response { status: OK, body: data_json(tasks_json(&rows).as_str()) },
        Err(e) => failure_response(e.as_str()),
    }
}

/// The response to a read by id.
pub fn get_response(result: Result<Option<TaskRow>, String>) -> (r: Response)
    ensures
        r@ == get_reply(row_result(result)),
{
    match result {
        Ok(Some(t)) => Response { status: OK, body: data_json(task_json(&t).as_str()) },
        Ok(None) => {
            let message = String::from_str(
                "no rows returned by a query that expected to return at least one row",
            );
            failure_response(message.as_str())
        },
        Err(e) => failure_response(e.as_str()),
    }
}

/// The response to a create.
pub fn create_response(result: Result<u64, String>) -> (r: Response)
    ensures
        r@ == create_reply(write_result(result)),
{
    match result {
        Ok(id) => Response { status: CREATED, body: data_json(created_json(id).as_str()) },
        Err(e) => failure_response(e.as_str()),
    }
}

/// The response to an update or a delete that reached storage; the outcome
/// does not depend on whether a row matched.
pub fn done_response(result: Result<u64, String>) -> (r: Response)
    ensures
        r@ == done_reply(write_result(result)),
{
    match result {
        Ok(_) => Response { status: OK, body: success_json() },
        Err(e) => failure_response(e.as_str()),
    }
}

/// The statement for an update of the task `task_id`, or the 400 response
/// when `req` names no field, whatever the id.
pub fn update_request(task_id: i32, req: &UpdateTaskReq) -> (r: Result<Statement, Response>)
    ensures
        r is Err <==> (req.name is None && req.priority is None),
        r matches Err(resp) ==> resp@ == nothing_to_update_reply(),
        r matches Ok(s) ==> s matches Statement::Update { task_id: id, changes } && id == task_id
            && changes@.map_values(|a: Assignment| a@) == changes_of(req_name(req), req.priority),
{
    match update_statement(task_id, req) {
        Some(s) => Ok(s),
        None => {
            let body = String::from_str("{\"message\":\"Nothing to update\",\"success\":false}");
            Err(Response { status: BAD_REQUEST, body })
        },
    }
}

} // verus!
