use task_api::handlers::{
    create_response, done_response, failure_response, get_response, list_response,
    update_request, Response,
};
use task_api::json::{render_int, render_nat, task_json};
use task_api::statement::{
    create_statement, delete_statement, get_statement, list_statement, update_statement, Param,
    Statement,
};
use task_api::table::MemoryTable;
use task_api::task::{CreateTaskReq, TaskRow, UpdateTaskReq};

fn create(table: &mut MemoryTable, name: &str, priority: Option<i32>) -> Response {
    let req = CreateTaskReq { name: name.to_string(), priority };
    create_response(table.execute(&create_statement(&req)))
}

fn get(table: &MemoryTable, id: i32) -> Response {
    get_response(table.fetch_optional(&get_statement(id)))
}

fn list(table: &MemoryTable) -> Response {
    list_response(table.fetch_all(&list_statement()))
}

fn update(table: &mut MemoryTable, id: i32, name: Option<&str>, priority: Option<i32>) -> Response {
    let req = UpdateTaskReq { name: name.map(|n| n.to_string()), priority };
    match update_request(id, &req) {
        Ok(s) => done_response(table.execute(&s)),
        Err(resp) => resp,
    }
}

fn delete(table: &mut MemoryTable, id: i32) -> Response {
    done_response(table.execute(&delete_statement(id)))
}

#[test]
fn end_to_end_scenario() {
    let mut table = MemoryTable::new();
    let created = create(&mut table, "write spec", Some(2));
    assert_eq!(created.status, 201);
    assert_eq!(created.body, "{\"data\":{\"task_id\":1},\"success\":true}");
    let n = 1;
    let read = get(&table, n);
    assert_eq!(read.status, 200);
    assert_eq!(
        read.body,
        "{\"data\":{\"name\":\"write spec\",\"priority\":2,\"task_id\":1},\"success\":true}"
    );
    let updated = update(&mut table, n, None, Some(5));
    assert_eq!(updated.status, 200);
    assert_eq!(updated.body, "{\"success\":true}");
    let read = get(&table, n);
    assert_eq!(read.status, 200);
    assert_eq!(
        read.body,
        "{\"data\":{\"name\":\"write spec\",\"priority\":5,\"task_id\":1},\"success\":true}"
    );
    let deleted = delete(&mut table, n);
    assert_eq!(deleted.status, 200);
    assert_eq!(deleted.body, "{\"success\":true}");
    let read = get(&table, n);
    assert_eq!(read.status, 500);
}

#[test]
fn created_task_is_listed_and_found() {
    let mut table = MemoryTable::new();
    create(&mut table, "first", None);
    let created = create(&mut table, "", Some(-3));
    assert_eq!(created.body, "{\"data\":{\"task_id\":2},\"success\":true}");
    let listed = list(&table);
    assert_eq!(listed.status, 200);
    assert_eq!(
        listed.body,
        "{\"data\":[{\"name\":\"first\",\"priority\":null,\"task_id\":1},\
         {\"name\":\"\",\"priority\":-3,\"task_id\":2}],\"success\":true}"
    );
    let read = get(&table, 2);
    assert_eq!(read.status, 200);
    assert_eq!(read.body, "{\"data\":{\"name\":\"\",\"priority\":-3,\"task_id\":2},\"success\":true}");
}

#[test]
fn empty_listing() {
    let table = MemoryTable::new();
    let listed = list(&table);
    assert_eq!(listed.status, 200);
    assert_eq!(listed.body, "{\"data\":[],\"success\":true}");
}

#[test]
fn update_with_no_field_is_bad_request() {
    let mut table = MemoryTable::new();
    create(&mut table, "a", Some(1));
    for id in [1, 99] {
        let resp = update(&mut table, id, None, None);
        assert_eq!(resp.status, 400);
        assert_eq!(resp.body, "{\"message\":\"Nothing to update\",\"success\":false}");
    }
    let read = get(&table, 1);
    assert_eq!(read.body, "{\"data\":{\"name\":\"a\",\"priority\":1,\"task_id\":1},\"success\":true}");
}

#[test]
fn update_name_only_keeps_priority() {
    let mut table = MemoryTable::new();
    create(&mut table, "a", Some(4));
    let resp = update(&mut table, 1, Some("b"), None);
    assert_eq!(resp.status, 200);
    let read = get(&table, 1);
    assert_eq!(read.body, "{\"data\":{\"name\":\"b\",\"priority\":4,\"task_id\":1},\"success\":true}");
}

#[test]
fn update_priority_only_keeps_name() {
    let mut table = MemoryTable::new();
    create(&mut table, "a", None);
    update(&mut table, 1, None, Some(9));
    let read = get(&table, 1);
    assert_eq!(read.body, "{\"data\":{\"name\":\"a\",\"priority\":9,\"task_id\":1},\"success\":true}");
}

#[test]
fn update_of_missing_id_succeeds() {
    let mut table = MemoryTable::new();
    let resp = update(&mut table, 7, Some("x"), Some(1));
    assert_eq!(resp.status, 200);
    assert_eq!(resp.body, "{\"success\":true}");
    assert_eq!(list(&table).body, "{\"data\":[],\"success\":true}");
}

#[test]
fn delete_of_missing_id_succeeds() {
    let mut table = MemoryTable::new();
    create(&mut table, "a", None);
    let resp = delete(&mut table, 42);
    assert_eq!(resp.status, 200);
    assert_eq!(resp.body, "{\"success\":true}");
    assert_eq!(
        list(&table).body,
        "{\"data\":[{\"name\":\"a\",\"priority\":null,\"task_id\":1}],\"success\":true}"
    );
}

#[test]
fn get_of_missing_id_is_internal_error() {
    let table = MemoryTable::new();
    let resp = get(&table, 3);
    assert_eq!(resp.status, 500);
    assert_eq!(
        resp.body,
        "{\"message\":\"no rows returned by a query that expected to return at least one row\",\"success\":false}"
    );
}

#[test]
fn ids_are_not_reused_after_delete() {
    let mut table = MemoryTable::new();
    create(&mut table, "a", None);
    delete(&mut table, 1);
    let created = create(&mut table, "b", None);
    assert_eq!(created.body, "{\"data\":{\"task_id\":2},\"success\":true}");
}

#[test]
fn storage_errors_are_reported_verbatim() {
    let resp = list_response(Err("pool timed out".to_string()));
    assert_eq!(resp.status, 500);
    assert_eq!(resp.body, "{\"message\":\"pool timed out\",\"success\":false}");
    let resp = create_response(Err("denied".to_string()));
    assert_eq!(resp.status, 500);
    let resp = done_response(Err("gone".to_string()));
    assert_eq!(resp.status, 500);
    assert_eq!(resp.body, "{\"message\":\"gone\",\"success\":false}");
    let resp = get_response(Err("broken".to_string()));
    assert_eq!(resp.status, 500);
}

#[test]
fn messages_are_escaped() {
    let resp = failure_response("say \"hi\"\n\\");
    assert_eq!(resp.body, "{\"message\":\"say \\\"hi\\\"\\n\\\\\",\"success\":false}");
    let row = TaskRow { task_id: 3, name: "tab\there".to_string(), priority: None };
    assert_eq!(task_json(&row), "{\"name\":\"tab\\there\",\"priority\":null,\"task_id\":3}");
}

#[test]
fn create_reports_large_ids() {
    let resp = create_response(Ok(18446744073709551615));
    assert_eq!(resp.status, 201);
    assert_eq!(resp.body, "{\"data\":{\"task_id\":18446744073709551615},\"success\":true}");
}

#[test]
fn integers_render_in_decimal() {
    assert_eq!(render_int(0), "0");
    assert_eq!(render_int(7), "7");
    assert_eq!(render_int(-10), "-10");
    assert_eq!(render_int(2147483647), "2147483647");
    assert_eq!(render_int(i64::MIN), "-9223372036854775808");
    assert_eq!(render_nat(100), "100");
}

#[test]
fn update_sql_lists_present_fields_name_first() {
    let both = UpdateTaskReq { name: Some("n".to_string()), priority: Some(3) };
    let s = update_statement(5, &both).unwrap();
    assert_eq!(s.sql(), "UPDATE tasks SET name = ?, priority = ? WHERE task_id = ?");
    assert_eq!(s.params(), vec![Param::Text("n".to_string()), Param::Int(3), Param::Int(5)]);
    let name_only = UpdateTaskReq { name: Some("n".to_string()), priority: None };
    let s = update_statement(5, &name_only).unwrap();
    assert_eq!(s.sql(), "UPDATE tasks SET name = ? WHERE task_id = ?");
    assert_eq!(s.params(), vec![Param::Text("n".to_string()), Param::Int(5)]);
    let priority_only = UpdateTaskReq { name: None, priority: Some(-1) };
    let s = update_statement(8, &priority_only).unwrap();
    assert_eq!(s.sql(), "UPDATE tasks SET priority = ? WHERE task_id = ?");
    assert_eq!(s.params(), vec![Param::Int(-1), Param::Int(8)]);
    assert!(update_statement(8, &UpdateTaskReq { name: None, priority: None }).is_none());
}

#[test]
fn fixed_statements_and_their_params() {
    assert_eq!(list_statement().sql(), "SELECT * FROM tasks ORDER BY task_id");
    assert!(list_statement().params().is_empty());
    assert_eq!(get_statement(4).sql(), "SELECT * FROM tasks WHERE task_id = ?");
    assert_eq!(get_statement(4).params(), vec![Param::Int(4)]);
    assert_eq!(delete_statement(4).sql(), "DELETE FROM tasks WHERE task_id = ?");
    assert_eq!(delete_statement(4).params(), vec![Param::Int(4)]);
    let req = CreateTaskReq { name: "x".to_string(), priority: None };
    let s = create_statement(&req);
    assert!(matches!(s, Statement::Insert { .. }));
    assert_eq!(s.sql(), "INSERT INTO tasks (name, priority) VALUES (?, ?)");
    assert_eq!(s.params(), vec![Param::Text("x".to_string()), Param::Null]);
}
