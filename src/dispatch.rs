use vstd::prelude::*;
use crate::table::{Todo, TodoModel};

verus! {

/// The action an invocation asks for; no command at all means a listing.
pub enum Command {
    Add { description: String },
    Done { id: u64 },
}

/// The character of the decimal digit `d`.
pub open spec fn digit_char(d: nat) -> char {
    if d == 0 { '0' }
    else if d == 1 { '1' }
    else if d == 2 { '2' }
    else if d == 3 { '3' }
    else if d == 4 { '4' }
    else if d == 5 { '5' }
    else if d == 6 { '6' }
    else if d == 7 { '7' }
    else if d == 8 { '8' }
    else { '9' }
}

/// `n` written in decimal, without leading zeros.
pub open spec fn decimal(n: nat) -> Seq<char>
    decreases n,
{
    if n < 10 {
        seq![digit_char(n)]
    } else {
        decimal(n / 10).push(digit_char(n % 10))
    }
}

/// `b` written as Rust writes a `bool`.
pub open spec fn bool_text(b: bool) -> Seq<char> {
    if b { "true"@ } else { "false"@ }
}

/// The line announced before a command is carried out.
pub open spec fn progress_text(cmd: Option<Command>) -> Seq<char> {
    match cmd {
        Some(Command::Add { description }) => "Adding new todo with description '"@ + description@ + "'"@,
        Some(Command::Done { id }) => "Marking todo "@ + decimal(id as nat) + " as done"@,
        None => "Printing list of all todos"@,
    }
}

/// The line reported after a row was inserted with identifier `id`.
pub open spec fn added_text(id: u64) -> Seq<char> {
    "Added new todo with id "@ + decimal(id as nat)
}

/// The line reported after completing `id`, depending on whether a row changed.
pub open spec fn done_text(id: u64, changed: bool) -> Seq<char> {
    if changed {
        "Todo "@ + decimal(id as nat) + " is marked as done"@
    } else {
        "Invalid id "@ + decimal(id as nat)
    }
}

/// The line that shows one row in a listing.
pub open spec fn row_text(t: TodoModel) -> Seq<char> {
    "ID: "@ + decimal(t.id as nat) + ", Description: "@ + t.description + ", Done: "@ + bool_text(t.done)
}

/// The line that opens a listing.
pub open spec fn header_text() -> Seq<char> {
    "Listing all todos:"@
}

/// Whether an update statement changed the table, given the number of rows it
/// reports as affected.
pub fn changed_from_rows_affected(rows_affected: u64) -> (r: bool)
    ensures
        r == (rows_affected > 0),
{
    rows_affected > 0
}

fn digit_str(d: u64) -> (r: &'static str)
    requires
        d < 10,
    ensures
        r@ == seq![digit_char(d as nat)],
{
    proof {
        reveal_strlit("0");
        reveal_strlit("1");
        reveal_strlit("2");
        reveal_strlit("3");
        reveal_strlit("4");
        reveal_strlit("5");
        reveal_strlit("6");
        reveal_strlit("7");
        reveal_strlit("8");
        reveal_strlit("9");
    }
    if d == 0 { "0" }
    else if d == 1 { "1" }
    else if d == 2 { "2" }
    else if d == 3 { "3" }
    else if d == 4 { "4" }
    else if d == 5 { "5" }
    else if d == 6 { "6" }
    else if d == 7 { "7" }
    else if d == 8 { "8" }
    else { "9" }
}

/// `n` in decimal.
pub fn decimal_string(n: u64) -> (r: String)
    ensures
        r@ == decimal(n as nat),
    decreases n,
{
    if n < 10 {
        String::from_str(digit_str(n))
    } else {
        let mut s = decimal_string(n / 10);
        s.append(digit_str(n % 10));
        s
    }
}

fn bool_string(b: bool) -> (r: String)
    ensures
        r@ == bool_text(b),
{
    if b { String::from_str("true") } else { String::from_str("false") }
}

/// The line announced before `cmd` is carried out.
pub fn progress_message(cmd: &Option<Command>) -> (r: String)
    ensures
        r@ == progress_text(*cmd),
{
    match cmd {
        Some(Command::Add { description }) => {
            let mut s = String::from_str("Adding new todo with description '");
            s.append(description.as_str());
            s.append("'");
            s
        },
        Some(Command::Done { id }) => {
            let mut s = String::from_str("Marking todo ");
            let digits = decimal_string(*id);
            s.append(digits.as_str());
            s.append(" as done");
            s
        },
        None => String::from_str("Printing list of all todos"),
    }
}

/// The line reported after a row was inserted with identifier `id`.
pub fn added_message(id: u64) -> (r: String)
    ensures
        r@ == added_text(id),
{
    let mut s = String::from_str("Added new todo with id ");
    let digits = decimal_string(id);
    s.append(digits.as_str());
    s
}

/// The line reported after completing `id`: a confirmation where a row
/// changed, an invalid-id notice where none did.
pub fn done_message(id: u64, changed: bool) -> (r: String)
    ensures
        r@ == done_text(id, changed),
{
    let digits = decimal_string(id);
    if changed {
        let mut s = String::from_str("Todo ");
        s.append(digits.as_str());
        s.append(" is marked as done");
        s
    } else {
        let mut s = String::from_str("Invalid id ");
        s.append(digits.as_str());
        s
    }
}

/// The line that shows `t` in a listing.
pub fn row_line(t: &Todo) -> (r: String)
    ensures
        r@ == row_text(t@),
{
    let mut s = String::from_str("ID: ");
    let digits = decimal_string(t.id);
    s.append(digits.as_str());
    s.append(", Description: ");
    s.append(t.description.as_str());
    s.append(", Done: ");
    let flag = bool_string(t.done);
    s.append(flag.as_str());
    s
}

/// A listing of `rows`: the header line, then one line per row in order.
pub fn listing_lines(rows: &Vec<Todo>) -> (r: Vec<String>)
    ensures
        r@.len() == rows@.len() + 1,
        r@[0]@ == header_text(),
        forall|i: int| 0 <= i < rows@.len() ==> #[trigger] r@[i + 1]@ == row_text(rows@[i]@),
{
    let mut out: Vec<String> = Vec::new();
    out.push(String::from_str("Listing all todos:"));
    let mut i: usize = 0;
    while i < rows.len()
        invariant
            0 <= i <= rows@.len(),
            out@.len() == i + 1,
            out@[0]@ == header_text(),
            forall|k: int| 0 <= k < i ==> #[trigger] out@[k + 1]@ == row_text(rows@[k]@),
        decreases rows@.len() - i,
    {
        let line = row_line(&rows[i]);
        out.push(line);
        i += 1;
    }
    out
}

} // verus!
