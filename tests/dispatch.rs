use todos::dispatch::{
    added_message, changed_from_rows_affected, decimal_string, done_message, listing_lines,
    progress_message, row_line, Command,
};
use todos::table::Todo;

#[test]
fn decimal_of_edges() {
    assert_eq!(decimal_string(0), "0");
    assert_eq!(decimal_string(7), "7");
    assert_eq!(decimal_string(10), "10");
    assert_eq!(decimal_string(1203), "1203");
    assert_eq!(decimal_string(u64::MAX), u64::MAX.to_string());
}

#[test]
fn progress_lines() {
    let add = Some(Command::Add { description: "Fix bug in login form".to_string() });
    assert_eq!(progress_message(&add), "Adding new todo with description 'Fix bug in login form'");
    assert_eq!(progress_message(&Some(Command::Done { id: 12 })), "Marking todo 12 as done");
    assert_eq!(progress_message(&None), "Printing list of all todos");
}

#[test]
fn result_lines() {
    assert_eq!(added_message(1), "Added new todo with id 1");
    assert_eq!(done_message(42, true), "Todo 42 is marked as done");
    assert_eq!(done_message(42, false), "Invalid id 42");
}

#[test]
fn row_and_listing_lines() {
    let a = Todo { id: 1, description: "Test new task".to_string(), done: false };
    let b = Todo { id: 20, description: "Ship".to_string(), done: true };
    assert_eq!(row_line(&a), "ID: 1, Description: Test new task, Done: false");
    let lines = listing_lines(&vec![a, b]);
    assert_eq!(
        lines,
        vec![
            "Listing all todos:".to_string(),
            "ID: 1, Description: Test new task, Done: false".to_string(),
            "ID: 20, Description: Ship, Done: true".to_string(),
        ]
    );
    assert_eq!(listing_lines(&vec![]), vec!["Listing all todos:".to_string()]);
}

#[test]
fn rows_affected_decides_change() {
    assert!(!changed_from_rows_affected(0));
    assert!(changed_from_rows_affected(1));
    assert!(changed_from_rows_affected(3));
}
