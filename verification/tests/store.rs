use todo::error::TodoError;
use todo::store::TaskStore;
use todo::task::TodoItem;
use todo::text::is_blank;

fn item(id: &str, text: &str, completed: bool) -> TodoItem {
    TodoItem::new(id.to_string(), text.to_string(), completed)
}

#[test]
fn a_task_keeps_its_parts() {
    let task = item("1", "a", false);
    assert_eq!(task.id(), "1");
    assert_eq!(task.text(), "a");
    assert!(!task.completed());
    assert_eq!(task.clone(), task);
    assert_ne!(task, item("1", "a", true));
    assert_ne!(task, item("2", "a", false));
    assert_ne!(task, item("1", "b", false));
}

#[test]
fn blank_texts_are_recognised() {
    assert!(is_blank(""));
    assert!(is_blank("   "));
    assert!(is_blank(" \t\r\n"));
    assert!(is_blank("\u{a0}\u{2003}\u{3000}"));
    assert!(!is_blank("x"));
    assert!(!is_blank("  x  "));
    assert!(!is_blank("\u{200b}"));
}

#[test]
fn a_new_store_is_empty() {
    let store = TaskStore::new();
    assert_eq!(store.len(), 0);
    assert!(store.list().is_empty());
}

#[test]
fn create_appends_an_open_task_with_the_text_as_given() {
    let mut store = TaskStore::new();
    let made = store.create("buy milk").unwrap();
    assert_eq!(made.text(), "buy milk");
    assert!(!made.completed());
    assert_eq!(store.list(), vec![made]);
}

#[test]
fn create_keeps_surrounding_white_space_in_the_text() {
    let mut store = TaskStore::new();
    let made = store.create("  call home \n").unwrap();
    assert_eq!(made.text(), "  call home \n");
    assert_eq!(store.list()[0].text(), "  call home \n");
}

#[test]
fn create_gives_a_hyphenated_identifier_of_36_characters() {
    let mut store = TaskStore::new();
    let made = store.create("x").unwrap();
    let id = made.id();
    assert_eq!(id.chars().count(), 36);
    for (i, c) in id.chars().enumerate() {
        if i == 8 || i == 13 || i == 18 || i == 23 {
            assert_eq!(c, '-');
        } else {
            assert!(c.is_ascii_hexdigit() && !c.is_ascii_uppercase());
        }
    }
    assert_eq!(id.chars().nth(14), Some('4'));
}

#[test]
fn create_gives_each_task_an_identifier_of_its_own() {
    let mut store = TaskStore::new();
    let mut seen = std::collections::HashSet::new();
    for _ in 0..200 {
        let made = store.create("again").unwrap();
        assert!(seen.insert(made.id().clone()));
    }
    assert_eq!(store.len(), 200);
}

#[test]
fn create_rejects_blank_text_and_leaves_the_store_alone() {
    let mut store = TaskStore::new();
    store.create_with_id("1".to_string(), "a").unwrap();
    let before = store.list();
    assert_eq!(store.create(""), Err(TodoError::EmptyText));
    assert_eq!(store.create("   "), Err(TodoError::EmptyText));
    assert_eq!(store.create("\t\n"), Err(TodoError::EmptyText));
    assert_eq!(store.create_with_id("2".to_string(), " "), Err(TodoError::EmptyText));
    assert_eq!(store.list(), before);
}

#[test]
fn create_with_id_uses_the_identifier_it_is_given() {
    let mut store = TaskStore::new();
    let made = store.create_with_id("abc".to_string(), "walk").unwrap();
    assert_eq!(made, item("abc", "walk", false));
    assert_eq!(store.list(), vec![item("abc", "walk", false)]);
}

#[test]
fn toggle_inverts_the_flag_in_place() {
    let mut store = TaskStore::from_tasks(vec![
        item("1", "a", false),
        item("2", "b", false),
        item("3", "c", true),
    ]);
    assert_eq!(store.toggle("2"), Ok(item("2", "b", true)));
    assert_eq!(
        store.list(),
        vec![item("1", "a", false), item("2", "b", true), item("3", "c", true)]
    );
    assert_eq!(store.toggle("3"), Ok(item("3", "c", false)));
    assert_eq!(
        store.list(),
        vec![item("1", "a", false), item("2", "b", true), item("3", "c", false)]
    );
}

#[test]
fn toggle_twice_gives_the_task_back() {
    let mut store = TaskStore::from_tasks(vec![item("1", "a", false), item("2", "b", true)]);
    let before = store.list();
    store.toggle("2").unwrap();
    assert_ne!(store.list(), before);
    store.toggle("2").unwrap();
    assert_eq!(store.list(), before);
}

#[test]
fn toggle_of_an_unknown_identifier_changes_nothing() {
    let mut store = TaskStore::from_tasks(vec![item("1", "a", false)]);
    assert_eq!(store.toggle("bad-id"), Err(TodoError::NotFound));
    assert_eq!(store.toggle(""), Err(TodoError::NotFound));
    assert_eq!(store.list(), vec![item("1", "a", false)]);
    let mut empty = TaskStore::new();
    assert_eq!(empty.toggle("1"), Err(TodoError::NotFound));
    assert_eq!(empty.len(), 0);
}

#[test]
fn toggle_takes_the_earliest_of_two_tasks_with_one_identifier() {
    let mut store = TaskStore::from_tasks(vec![
        item("0", "z", false),
        item("1", "a", false),
        item("1", "b", false),
    ]);
    assert_eq!(store.toggle("1"), Ok(item("1", "a", true)));
    assert_eq!(
        store.list(),
        vec![item("0", "z", false), item("1", "a", true), item("1", "b", false)]
    );
}

#[test]
fn merge_appends_every_task_in_order() {
    let mut store = TaskStore::from_tasks(vec![item("1", "a", false)]);
    store.merge(vec![item("2", "b", true), item("3", "c", false)]);
    assert_eq!(store.len(), 3);
    assert_eq!(
        store.list(),
        vec![item("1", "a", false), item("2", "b", true), item("3", "c", false)]
    );
    store.merge(Vec::new());
    assert_eq!(store.len(), 3);
}

#[test]
fn merge_does_not_remove_duplicates() {
    let mut store = TaskStore::from_tasks(vec![item("1", "mine", true)]);
    store.merge(vec![item("1", "a", false)]);
    let tasks = store.list();
    assert_eq!(tasks.len(), 2);
    assert_eq!(tasks.iter().filter(|task| task.id() == "1").count(), 2);
    assert_eq!(tasks, vec![item("1", "mine", true), item("1", "a", false)]);
}

#[test]
fn errors_have_a_line_for_the_log() {
    assert_eq!(TodoError::EmptyText.message(), "Task text cannot be empty");
    assert_eq!(TodoError::NotFound.message(), "Task not found");
    assert_eq!(TodoError::MalformedMessage.message(), "Malformed WebSocket message");
    assert_eq!(TodoError::UnknownAction.message(), "Unknown WebSocket action");
    assert_eq!(TodoError::BinaryFrame.message(), "Received WebSocket binary message");
}

#[test]
fn stores_are_equal_when_their_tasks_are() {
    let one = TaskStore::from_tasks(vec![item("1", "a", false), item("2", "b", true)]);
    let mut two = one.clone();
    assert_eq!(one, two);
    two.toggle("2").unwrap();
    assert_ne!(one, two);
    two.toggle("2").unwrap();
    assert_eq!(one, two);
    two.merge(vec![item("3", "c", false)]);
    assert_ne!(one, two);
    assert_ne!(
        TaskStore::from_tasks(vec![item("1", "a", false), item("2", "b", true)]),
        TaskStore::from_tasks(vec![item("2", "b", true), item("1", "a", false)])
    );
    assert_eq!(TaskStore::new(), TaskStore::from_tasks(Vec::new()));
}
