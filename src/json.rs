use vstd::prelude::*;
use vstd::string::*;
use crate::task::{TaskModel, TaskRow};

verus! {

/// The JSON text of a string value: quoted, with the characters JSON
/// demands escaped.
pub uninterp spec fn json_string_of(s: Seq<char>) -> Seq<char>;

/// Relies on serde_json's `Display` for `Value::String`: the compact JSON
/// text of the string, which depends on its characters alone.
#[verifier::external_body]
pub(crate) fn json_string(s: &str) -> (r: String)
    ensures
        r@ == json_string_of(s@),
{
    serde_json::Value::String(s.to_owned()).to_string()
}

/// The character of a decimal digit.
pub open spec fn digit_char(d: nat) -> char {
    if d == 0 { '0' } else if d == 1 { '1' } else if d == 2 { '2' } else if d == 3 { '3' }
    else if d == 4 { '4' } else if d == 5 { '5' } else if d == 6 { '6' } else if d == 7 { '7' }
    else if d == 8 { '8' } else { '9' }
}

/// The decimal digits of a natural number, without leading zeros.
pub open spec fn digits(n: nat) -> Seq<char>
    decreases n,
{
    if n < 10 {
        seq![digit_char(n)]
    } else {
        digits(n / 10).push(digit_char(n % 10))
    }
}

/// The decimal text of an integer, with a leading `-` when negative.
pub open spec fn decimal(n: int) -> Seq<char> {
    if n < 0 { seq!['-'] + digits((-n) as nat) } else { digits(n as nat) }
}

fn digit_str(d: u64) -> (r: &'static str)
    requires
        d < 10,
    ensures
        r@ == seq![digit_char(d as nat)],
{
    if d == 0 { proof { reveal_strlit("0"); } "0" }
    else if d == 1 { proof { reveal_strlit("1"); } "1" }
    else if d == 2 { proof { reveal_strlit("2"); } "2" }
    else if d == 3 { proof { reveal_strlit("3"); } "3" }
    else if d == 4 { proof { reveal_strlit("4"); } "4" }
    else if d == 5 { proof { reveal_strlit("5"); } "5" }
    else if d == 6 { proof { reveal_strlit("6"); } "6" }
    else if d == 7 { proof { reveal_strlit("7"); } "7" }
    else if d == 8 { proof { reveal_strlit("8"); } "8" }
    else { proof { reveal_strlit("9"); } "9" }
}

/// The decimal text of an unsigned integer.
pub fn render_nat(n: u64) -> (r: String)
    ensures
        r@ == digits(n as nat),
{
    let mut m: u64 = n;
    let mut r = String::new();
    while m >= 10
        invariant
            digits(n as nat) == digits(m as nat) + r@,
        decreases m,
    {
        let d = String::from_str(digit_str(m % 10));
        proof {
            assert(digits(m as nat) == digits((m / 10) as nat).push(digit_char((m % 10) as nat)));
            assert(digits(n as nat) =~= digits((m / 10) as nat) + (d@ + r@));
        }
        r = d.concat(r.as_str());
        m = m / 10;
    }
    let d = String::from_str(digit_str(m));
    proof {
        assert(digits(n as nat) =~= d@ + r@);
    }
    d.concat(r.as_str())
}

/// The decimal text of an integer, as JSON writes it.
pub fn render_int(n: i64) -> (r: String)
    ensures
        r@ == decimal(n as int),
{
    if n < 0 {
        let m: u64 = (0i128 - n as i128) as u64;
        let digits_text = render_nat(m);
        let minus = String::from_str("-");
        proof { reveal_strlit("-"); }
        minus.concat(digits_text.as_str())
    } else {
        render_nat(n as u64)
    }
}

/// `null` for an absent priority, its decimal text otherwise.
pub open spec fn priority_text(p: Option<i32>) -> Seq<char> {
    match p {
        Some(v) => decimal(v as int),
        None => "null"@,
    }
}

/// The JSON object of one task, keys in alphabetical order.
pub open spec fn task_text(t: TaskModel) -> Seq<char> {
    "{\"name\":"@ + json_string_of(t.name) + ",\"priority\":"@ + priority_text(t.priority)
        + ",\"task_id\":"@ + decimal(t.task_id as int) + "}"@
}

/// The task objects of `ts`, separated by commas.
pub open spec fn items_text(ts: Seq<TaskModel>) -> Seq<char>
    decreases ts.len(),
{
    if ts.len() == 0 {
        Seq::empty()
    } else if ts.len() == 1 {
        task_text(ts[0])
    } else {
        items_text(ts.drop_last()) + ","@ + task_text(ts.last())
    }
}

/// The JSON array of the tasks `ts`, in their order.
pub open spec fn tasks_text(ts: Seq<TaskModel>) -> Seq<char> {
    "["@ + items_text(ts) + "]"@
}

/// The failure envelope carrying `message`.
pub open spec fn failure_text(message: Seq<char>) -> Seq<char> {
    "{\"message\":"@ + json_string_of(message) + ",\"success\":false}"@
}

/// The success envelope without a payload.
pub open spec fn success_text() -> Seq<char> {
    "{\"success\":true}"@
}

/// The success envelope with `data` as its payload.
pub open spec fn data_text(data: Seq<char>) -> Seq<char> {
    "{\"data\":"@ + data + ",\"success\":true}"@
}

/// The payload that reports the id of a new task.
pub open spec fn created_text(task_id: nat) -> Seq<char> {
    "{\"task_id\":"@ + digits(task_id) + "}"@
}

/// The JSON object of one task.
pub fn task_json(t: &TaskRow) -> (r: String)
    ensures
        r@ == task_text(t@),
{
    let priority = match t.priority {
        Some(v) => render_int(v as i64),
        None => String::from_str("null"),
    };
    let r = String::from_str("{\"name\":");
    let r = r.concat(json_string(t.name.as_str()).as_str());
    let r = r.concat(",\"priority\":");
    let r = r.concat(priority.as_str());
    let r = r.concat(",\"task_id\":");
    let r = r.concat(render_int(t.task_id as i64).as_str());
    let r = r.concat("}");
    r
}

/// The JSON array of the tasks in `ts`, in their order.
pub fn tasks_json(ts: &Vec<TaskRow>) -> (r: String)
    ensures
        r@ == tasks_text(ts@.map_values(|t: TaskRow| t@)),
{
    let ghost models = ts@.map_values(|t: TaskRow| t@);
    let mut items = String::new();
    let mut i: usize = 0;
    while i < ts.len()
        invariant
            i <= ts.len(),
            models == ts@.map_values(|t: TaskRow| t@),
            items@ == items_text(models.subrange(0, i as int)),
        decreases ts.len() - i,
    {
        let one = task_json(&ts[i]);
        proof {
            let next = models.subrange(0, i + 1);
            assert(next.drop_last() =~= models.subrange(0, i as int));
            assert(next.last() == ts@[i as int]@);
        }
        if i == 0 {
            items = one;
        } else {
            items = items.concat(",");
            items = items.concat(one.as_str());
        }
        i = i + 1;
    }
    proof {
        assert(models.subrange(0, i as int) =~= models);
    }
    let r = String::from_str("[");
    let r = r.concat(items.as_str());
    r.concat("]")
}

/// The failure envelope carrying `message`.
pub fn failure_json(message: &str) -> (r: String)
    ensures
        r@ == failure_text(message@),
{
    let r = String::from_str("{\"message\":");
    let r = r.concat(json_string(message).as_str());
    r.concat(",\"success\":false}")
}

/// The success envelope without a payload.
pub fn success_json() -> (r: String)
    ensures
        r@ == success_text(),
{
    String::from_str("{\"success\":true}")
}

/// The success envelope with the JSON text `data` as its payload.
pub fn data_json(data: &str) -> (r: String)
    ensures
        r@ == data_text(data@),
{
    let r = String::from_str("{\"data\":");
    let r = r.concat(data);
    r.concat(",\"success\":true}")
}

/// The payload that reports the id of a new task.
pub fn created_json(task_id: u64) -> (r: String)
    ensures
        r@ == created_text(task_id as nat),
{
    let r = String::from_str("{\"task_id\":");
    let r = r.concat(render_nat(task_id).as_str());
    r.concat("}")
}

} // verus!
