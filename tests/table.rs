use todos::table::{Todo, TodoTable};

fn table_with(descriptions: &[&str]) -> TodoTable {
    let mut t = TodoTable::new();
    for d in descriptions {
        t.create(d.to_string()).unwrap();
    }
    t
}

#[test]
fn test_list_todos() {
    let t = table_with(&["Fix bug in login form", "Write release notes", "Update dependencies"]);
    let rows = t.list();
    assert_eq!(rows.len(), 3);
    assert_eq!(rows[0].id, 1);
    assert_eq!(rows[0].description, "Fix bug in login form");
    assert_eq!(rows[2].id, 3);
    assert!(rows.iter().all(|r| !r.done));
}

#[test]
fn test_complete_todo() {
    let mut t = table_with(&["Fix bug in login form", "Write release notes"]);
    let todo_id = 1;
    let before: Todo = t.get(todo_id).unwrap();
    assert_eq!(before.done, false);
    let result = t.complete(todo_id);
    assert_eq!(result, true);
    let after = t.get(todo_id).unwrap();
    assert_eq!(after.done, true);
}

#[test]
fn test_add_todo() {
    let mut t = TodoTable::new();
    let description = "Test new task";
    assert_eq!(t.list().len(), 0);
    let todo_id = t.create(description.to_string()).unwrap();
    assert_eq!(todo_id, 1);
    let after = t.list();
    assert_eq!(after.len(), 1);
    assert_eq!(after[0].description, description);
    assert_eq!(after[0].done, false);
}

#[test]
fn empty_table_lists_nothing() {
    assert!(TodoTable::new().list().is_empty());
}

#[test]
fn complete_after_create_is_true() {
    let mut t = table_with(&["a", "b"]);
    let id = t.create("c".to_string()).unwrap();
    assert_eq!(id, 3);
    assert!(t.complete(id));
}

#[test]
fn complete_missing_id_changes_nothing() {
    let mut t = table_with(&["a", "b"]);
    t.complete(2);
    assert!(!t.complete(0));
    assert!(!t.complete(7));
    let rows = t.list();
    assert_eq!(rows.len(), 2);
    assert_eq!((rows[0].id, rows[0].description.as_str(), rows[0].done), (1, "a", false));
    assert_eq!((rows[1].id, rows[1].description.as_str(), rows[1].done), (2, "b", true));
}

#[test]
fn complete_twice_stays_done() {
    let mut t = table_with(&["a"]);
    assert!(t.complete(1));
    assert!(t.complete(1));
    assert!(t.get(1).unwrap().done);
    assert_eq!(t.list().len(), 1);
}

#[test]
fn list_is_ordered_by_id() {
    let mut t = table_with(&["a", "b", "c", "d"]);
    t.complete(3);
    let ids: Vec<u64> = t.list().iter().map(|r| r.id).collect();
    assert_eq!(ids, vec![1, 2, 3, 4]);
}

#[test]
fn create_then_list_adds_one_pending_row() {
    let mut t = table_with(&["a", "b"]);
    t.complete(1);
    let before = t.list();
    t.create("".to_string()).unwrap();
    let after = t.list();
    assert_eq!(after.len(), before.len() + 1);
    for (x, y) in before.iter().zip(after.iter()) {
        assert_eq!((x.id, &x.description, x.done), (y.id, &y.description, y.done));
    }
    assert_eq!(after[2].description, "");
    assert!(!after[2].done);
}

#[test]
fn get_missing_is_none() {
    let t = table_with(&["a"]);
    assert!(t.get(2).is_none());
    assert!(TodoTable::new().get(1).is_none());
}

#[test]
fn duplicate_keeps_fields() {
    let t = Todo { id: 9, description: "x y".to_string(), done: true };
    let c = t.duplicate();
    assert_eq!((c.id, c.description.as_str(), c.done), (9, "x y", true));
}
