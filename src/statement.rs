use vstd::prelude::*;
use vstd::string::*;
use crate::task::{CreateTaskReq, UpdateTaskReq};

verus! {

/// One field that an update sets, with its new value.
pub enum Assignment {
    Name(String),
    Priority(i32),
}

/// An assignment as the contracts see it.
pub enum Change {
    Name(Seq<char>),
    Priority(i32),
}

impl View for Assignment {
    type V = Change;

    open spec fn view(&self) -> Change {
        match self {
            Assignment::Name(s) => Change::Name(s@),
            Assignment::Priority(p) => Change::Priority(*p),
        }
    }
}

/// A value bound to one `?` of a statement.
#[derive(Debug, PartialEq)]
pub enum Param {
    Int(i32),
    Text(String),
    Null,
}

/// A bound value as the contracts see it.
pub enum ParamModel {
    Int(i32),
    Text(Seq<char>),
    Null,
}

impl View for Param {
    type V = ParamModel;

    open spec fn view(&self) -> ParamModel {
        match self {
            Param::Int(v) => ParamModel::Int(*v),
            Param::Text(s) => ParamModel::Text(s@),
            Param::Null => ParamModel::Null,
        }
    }
}

/// The statements the service issues against the `tasks` table.
pub enum Statement {
    SelectAll,
    SelectById { task_id: i32 },
    Insert { name: String, priority: Option<i32> },
    Update { task_id: i32, changes: Vec<Assignment> },
    Delete { task_id: i32 },
}

/// The changes that an update request asks for: the name first, then the
/// priority, each only when present.
pub open spec fn changes_of(name: Option<Seq<char>>, priority: Option<i32>) -> Seq<Change> {
    let first: Seq<Change> = match name {
        Some(n) => seq![Change::Name(n)],
        None => Seq::empty(),
    };
    let second: Seq<Change> = match priority {
        Some(p) => seq![Change::Priority(p)],
        None => Seq::empty(),
    };
    first + second
}

/// The name field of an update request, as a sequence of characters.
pub open spec fn req_name(req: &UpdateTaskReq) -> Option<Seq<char>> {
    match req.name {
        Some(n) => Some(n@),
        None => None,
    }
}

/// The column that a change sets.
pub open spec fn column_of(c: Change) -> Seq<char> {
    match c {
        Change::Name(_) => "name"@,
        Change::Priority(_) => "priority"@,
    }
}

/// The SET list of an update: `column = ?` for each change, joined by `, `.
pub open spec fn set_list(cs: Seq<Change>) -> Seq<char>
    decreases cs.len(),
{
    if cs.len() == 0 {
        Seq::empty()
    } else if cs.len() == 1 {
        column_of(cs[0]) + " = ?"@
    } else {
        set_list(cs.drop_last()) + ", "@ + column_of(cs.last()) + " = ?"@
    }
}

/// The value that a change binds.
pub open spec fn change_param(c: Change) -> ParamModel {
    match c {
        Change::Name(n) => ParamModel::Text(n),
        Change::Priority(p) => ParamModel::Int(p),
    }
}

/// The bound value of an optional priority: `NULL` when absent.
pub open spec fn priority_param(p: Option<i32>) -> ParamModel {
    match p {
        Some(v) => ParamModel::Int(v),
        None => ParamModel::Null,
    }
}

impl Statement {
    /// The SQL text of the statement, with a `?` for each bound value.
    pub open spec fn sql_of(&self) -> Seq<char> {
        match self {
            Statement::SelectAll => "SELECT * FROM tasks ORDER BY task_id"@,
            Statement::SelectById { .. } => "SELECT * FROM tasks WHERE task_id = ?"@,
            Statement::Insert { .. } => "INSERT INTO tasks (name, priority) VALUES (?, ?)"@,
            Statement::Update { changes, .. } =>
                "UPDATE tasks SET "@ + set_list(changes@.map_values(|a: Assignment| a@))
                    + " WHERE task_id = ?"@,
            Statement::Delete { .. } => "DELETE FROM tasks WHERE task_id = ?"@,
        }
    }

    /// The values bound to the statement's `?`s, in order.
    pub open spec fn params_of(&self) -> Seq<ParamModel> {
        match self {
            Statement::SelectAll => Seq::empty(),
            Statement::SelectById { task_id } => seq![ParamModel::Int(*task_id)],
            Statement::Insert { name, priority } =>
                seq![ParamModel::Text(name@), priority_param(*priority)],
            Statement::Update { task_id, changes } =>
                changes@.map_values(|a: Assignment| change_param(a@)).push(
                    ParamModel::Int(*task_id),
                ),
            Statement::Delete { task_id } => seq![ParamModel::Int(*task_id)],
        }
    }

    /// The SQL text of the statement.
    pub fn sql(&self) -> (r: String)
        ensures
            r@ == self.sql_of(),
    {
        match self {
            Statement::SelectAll => String::from_str("SELECT * FROM tasks ORDER BY task_id"),
            Statement::SelectById { .. } => String::from_str("SELECT * FROM tasks WHERE task_id = ?"),
            Statement::Insert { .. } => String::from_str(
                "INSERT INTO tasks (name, priority) VALUES (?, ?)",
            ),
            Statement::Update { changes, .. } => {
                let r = String::from_str("UPDATE tasks SET ");
                let r = r.concat(render_set_list(changes).as_str());
                r.concat(" WHERE task_id = ?")
            },
            Statement::Delete { .. } => String::from_str("DELETE FROM tasks WHERE task_id = ?"),
        }
    }

    /// The values bound to the statement's `?`s, in order.
    pub fn params(&self) -> (r: Vec<Param>)
        ensures
            r@.map_values(|p: Param| p@) == self.params_of(),
    {
        let mut r: Vec<Param> = Vec::new();
        match self {
            Statement::SelectAll => {},
            Statement::SelectById { task_id } => {
                r.push(Param::Int(*task_id));
            },
            Statement::Insert { name, priority } => {
                r.push(Param::Text(name.clone()));
                match priority {
                    Some(v) => r.push(Param::Int(*v)),
                    None => r.push(Param::Null),
                }
            },
            Statement::Update { task_id, changes } => {
                r = change_params(changes);
                r.push(Param::Int(*task_id));
            },
            Statement::Delete { task_id } => {
                r.push(Param::Int(*task_id));
            },
        }
        proof {
            assert(r@.map_values(|p: Param| p@) =~= self.params_of());
        }
        r
    }
}

/// The values that `changes` bind, in order.
fn change_params(changes: &Vec<Assignment>) -> (r: Vec<Param>)
    ensures
        r@.map_values(|p: Param| p@) == changes@.map_values(|a: Assignment| change_param(a@)),
{
    let mut r: Vec<Param> = Vec::new();
    let mut i: usize = 0;
    while i < changes.len()
        invariant
            i <= changes.len(),
            r@.len() == i,
            forall|j: int| 0 <= j < i ==> r@[j]@ == change_param(#[trigger] changes@[j]@),
        decreases changes.len() - i,
    {
        let p = match &changes[i] {
            Assignment::Name(n) => Param::Text(n.clone()),
            Assignment::Priority(v) => Param::Int(*v),
        };
        r.push(p);
        i = i + 1;
    }
    proof {
        assert(r@.map_values(|p: Param| p@) =~= changes@.map_values(|a: Assignment| change_param(a@)));
    }
    r
}

/// The SET list of an update.
fn render_set_list(changes: &Vec<Assignment>) -> (r: String)
    ensures
        r@ == set_list(changes@.map_values(|a: Assignment| a@)),
{
    let ghost cs = changes@.map_values(|a: Assignment| a@);
    let mut r = String::new();
    let mut i: usize = 0;
    while i < changes.len()
        invariant
            i <= changes.len(),
            cs == changes@.map_values(|a: Assignment| a@),
            r@ == set_list(cs.subrange(0, i as int)),
        decreases changes.len() - i,
    {
        proof {
            let next = cs.subrange(0, i + 1);
            assert(next.drop_last() =~= cs.subrange(0, i as int));
            assert(next.last() == changes@[i as int]@);
        }
        if i > 0 {
            r = r.concat(", ");
        }
        let column = match &changes[i] {
            Assignment::Name(_) => "name",
            Assignment::Priority(_) => "priority",
        };
        r = r.concat(column);
        r = r.concat(" = ?");
        i = i + 1;
    }
    proof {
        assert(cs.subrange(0, i as int) =~= cs);
    }
    r
}

/// The statement that lists every task by ascending id.
pub fn list_statement() -> (r: Statement)
    ensures
        r is SelectAll,
{
    Statement::SelectAll
}

/// The statement that reads the task `task_id`.
pub fn get_statement(task_id: i32) -> (r: Statement)
    ensures
        r == (Statement::SelectById { task_id }),
{
    Statement::SelectById { task_id }
}

/// The statement that inserts the task that `req` describes.
pub fn create_statement(req: &CreateTaskReq) -> (r: Statement)
    ensures
        r matches Statement::Insert { name, priority } && name@ == req.name@ && priority
            == req.priority,
{
    Statement::Insert { name: req.name.clone(), priority: req.priority }
}

/// The statement that deletes the task `task_id`.
pub fn delete_statement(task_id: i32) -> (r: Statement)
    ensures
        r == (Statement::Delete { task_id }),
{
    Statement::Delete { task_id }
}

/// The changes that `req` asks for, name first.
pub fn update_changes(req: &UpdateTaskReq) -> (r: Vec<Assignment>)
    ensures
        r@.map_values(|a: Assignment| a@) == changes_of(req_name(req), req.priority),
{
    let mut r: Vec<Assignment> = Vec::new();
    match &req.name {
        Some(n) => r.push(Assignment::Name(n.clone())),
        None => {},
    }
    match req.priority {
        Some(p) => r.push(Assignment::Priority(p)),
        None => {},
    }
    proof {
        assert(r@.map_values(|a: Assignment| a@) =~= changes_of(req_name(req), req.priority));
    }
    r
}

/// The update statement for `req` on the task `task_id`; `None` when `req`
/// names no field, for then there is nothing to update.
pub fn update_statement(task_id: i32, req: &UpdateTaskReq) -> (r: Option<Statement>)
    ensures
        r is None <==> (req.name is None && req.priority is None),
        r matches Some(s) ==> s matches Statement::Update { task_id: id, changes } && id
            == task_id && changes@.map_values(|a: Assignment| a@) == changes_of(
            req_name(req),
            req.priority,
        ),
{
    let changes = update_changes(req);
    proof {
        assert(changes@.map_values(|a: Assignment| a@).len() == changes@.len());
    }
    if changes.len() == 0 {
        proof {
            if req.name is Some || req.priority is Some {
                assert(changes_of(req_name(req), req.priority).len() > 0);
            }
        }
        None
    } else {
        Some(Statement::Update { task_id, changes })
    }
}

} // verus!
