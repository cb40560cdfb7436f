use todo::command::Command;
use todo::error::TodoError;
use todo::frame::{LazyLoadBlob, WsMessageType, WsPush};
use todo::state::{Snapshot, TodoState};
use todo::task::TodoItem;

fn item(id: &str, text: &str, completed: bool) -> TodoItem {
    TodoItem::new(id.to_string(), text.to_string(), completed)
}

fn restored(tasks: Vec<TodoItem>, clients: Vec<String>) -> TodoState {
    TodoState::restore(Snapshot { tasks, clients })
}

fn frame(text: &str) -> LazyLoadBlob {
    LazyLoadBlob { mime: None, bytes: text.as_bytes().to_vec() }
}

fn nothing() -> LazyLoadBlob {
    LazyLoadBlob { mime: None, bytes: Vec::new() }
}

fn document(push: &WsPush) -> serde_json::Value {
    serde_json::from_slice(&push.blob.bytes).unwrap()
}

fn targets(pushes: &[WsPush]) -> Vec<u32> {
    let mut ids: Vec<u32> = pushes.iter().map(|push| push.channel_id).collect();
    ids.sort();
    ids
}

fn sorted(mut ids: Vec<u32>) -> Vec<u32> {
    ids.sort();
    ids
}

#[test]
fn a_new_state_is_empty() {
    let state = TodoState::new();
    assert!(state.tasks().is_empty());
    assert!(state.channels().is_empty());
    assert!(state.clients().is_empty());
    let state = TodoState::default();
    assert!(state.tasks().is_empty());
    assert!(state.channels().is_empty());
    assert!(state.clients().is_empty());
}

#[test]
fn initialize_empties_the_state() {
    let mut state = restored(vec![item("1", "a", false)], vec!["peer.os".to_string()]);
    state.register_channel(3);
    state.initialize();
    assert!(state.tasks().is_empty());
    assert!(state.channels().is_empty());
    assert!(state.clients().is_empty());
}

#[test]
fn restore_takes_tasks_and_peers_and_no_channels() {
    let state = restored(
        vec![item("1", "a", false), item("2", "b", true)],
        vec!["one.os".to_string(), "two.os".to_string()],
    );
    assert_eq!(state.tasks(), vec![item("1", "a", false), item("2", "b", true)]);
    assert_eq!(state.clients(), vec!["one.os".to_string(), "two.os".to_string()]);
    assert!(state.channels().is_empty());
}

#[test]
fn a_snapshot_holds_tasks_and_peers_and_survives_a_restart() {
    let mut state = restored(vec![item("1", "a", false)], vec!["one.os".to_string()]);
    state.register_channel(5);
    state.apply(Command::ToggleTask { id: "1".to_string() }).unwrap();
    let snapshot = state.snapshot();
    assert_eq!(snapshot.tasks, vec![item("1", "a", true)]);
    assert_eq!(snapshot.clients, vec!["one.os".to_string()]);
    let again = TodoState::restore(snapshot);
    assert_eq!(again.tasks(), state.tasks());
    assert_eq!(again.clients(), state.clients());
    assert!(again.channels().is_empty());
    assert_eq!(state.channels(), vec![5]);
}

#[test]
fn create_then_list() {
    let mut state = TodoState::new();
    let pushes = state.apply(Command::AddTask { text: "buy milk".to_string() }).unwrap();
    assert!(pushes.is_empty());
    let tasks = state.get_tasks("".to_string()).unwrap();
    assert_eq!(tasks.len(), 1);
    assert_eq!(tasks[0].text(), "buy milk");
    assert!(!tasks[0].completed());
}

#[test]
fn add_task_on_one_channel_reaches_both() {
    let mut state = TodoState::new();
    state.register_channel(10);
    state.register_channel(20);
    let pushes = state
        .websocket(10, WsMessageType::Text, frame(r#"{"action":"add_task","text":"x"}"#))
        .unwrap();
    assert_eq!(targets(&pushes), vec![10, 20]);
    let first = document(&pushes[0]);
    let second = document(&pushes[1]);
    assert_eq!(first["type"].as_str(), Some("task_added"));
    assert_eq!(second["type"].as_str(), Some("task_added"));
    assert_eq!(first["tasks"], second["tasks"]);
    assert_eq!(pushes[0].blob.bytes, pushes[1].blob.bytes);
    assert_eq!(first["tasks"].as_array().unwrap().len(), 1);
    assert_eq!(first["tasks"][0], first["task"]);
    assert_eq!(first["task"]["text"].as_str(), Some("x"));
    assert_eq!(first["task"]["completed"].as_bool(), Some(false));
    let tasks = state.tasks();
    assert_eq!(tasks.len(), 1);
    assert_eq!(first["task"]["id"].as_str(), Some(tasks[0].id().as_str()));
    for push in &pushes {
        assert_eq!(push.message_type, WsMessageType::Text);
        assert_eq!(push.blob.mime.as_deref(), Some("application/json"));
    }
}

#[test]
fn toggle_of_a_bad_identifier_sends_nothing() {
    let mut state = restored(vec![item("1", "a", false)], Vec::new());
    state.register_channel(1);
    let outcome =
        state.websocket(1, WsMessageType::Text, frame(r#"{"action":"toggle_task","id":"bad-id"}"#));
    assert!(matches!(outcome, Err(TodoError::NotFound)));
    assert_eq!(state.tasks().len(), 1);
    assert_eq!(state.tasks(), vec![item("1", "a", false)]);
    assert_eq!(state.channels(), vec![1]);
}

#[test]
fn merge_of_a_known_identifier_leaves_two_entries() {
    let mut state = restored(vec![item("1", "here", true)], Vec::new());
    state.register_channel(1);
    assert_eq!(state.merge_tasks(vec![item("1", "a", false)]), Ok(()));
    let tasks = state.tasks();
    assert_eq!(tasks.len(), 2);
    assert_eq!(tasks.iter().filter(|task| task.id() == "1").count(), 2);
    assert_eq!(tasks, vec![item("1", "here", true), item("1", "a", false)]);
    assert_eq!(state.channels(), vec![1]);
}

#[test]
fn merge_grows_the_list_by_the_number_of_incoming_tasks() {
    let mut state = restored(vec![item("1", "a", false)], vec!["p.os".to_string()]);
    let incoming = vec![item("1", "a", false), item("2", "b", false), item("2", "b", false)];
    assert_eq!(state.merge_tasks(incoming.clone()), Ok(()));
    assert_eq!(state.tasks().len(), 1 + incoming.len());
    assert_eq!(state.tasks()[1..].to_vec(), incoming);
    assert_eq!(state.merge_tasks(Vec::new()), Ok(()));
    assert_eq!(state.tasks().len(), 4);
    assert_eq!(state.clients(), vec!["p.os".to_string()]);
}

#[test]
fn share_hands_out_the_list_and_changes_nothing() {
    let mut state = restored(
        vec![item("1", "a", false), item("2", "b", true)],
        vec!["p.os".to_string()],
    );
    state.register_channel(8);
    let shared = state.share_tasks("anything".to_string());
    assert_eq!(shared, vec![item("1", "a", false), item("2", "b", true)]);
    assert_eq!(state.tasks(), shared);
    assert_eq!(state.channels(), vec![8]);
    assert_eq!(state.clients(), vec!["p.os".to_string()]);
    assert_eq!(state.share_tasks(String::new()), shared);
}

#[test]
fn share_and_merge_bring_a_peer_up_to_date() {
    let mut here = restored(vec![item("1", "a", false)], Vec::new());
    let mut there = restored(vec![item("2", "b", true)], Vec::new());
    let shared = here.share_tasks(String::new());
    assert_eq!(there.merge_tasks(shared), Ok(()));
    assert_eq!(there.tasks(), vec![item("2", "b", true), item("1", "a", false)]);
    assert_eq!(here.tasks(), vec![item("1", "a", false)]);
}

#[test]
fn get_tasks_over_http_answers_with_the_list() {
    let state = restored(vec![item("1", "a", false)], Vec::new());
    assert_eq!(state.get_tasks("ignored".to_string()), Ok(vec![item("1", "a", false)]));
    assert_eq!(TodoState::new().get_tasks(String::new()), Ok(Vec::new()));
}

#[test]
fn get_tasks_on_a_channel_goes_to_all_channels() {
    let mut state = restored(vec![item("1", "a", true)], Vec::new());
    for id in [1u32, 2, 3] {
        state.register_channel(id);
    }
    let pushes =
        state.websocket(2, WsMessageType::Text, frame(r#"{"action":"get_tasks"}"#)).unwrap();
    assert_eq!(targets(&pushes), vec![1, 2, 3]);
    for push in &pushes {
        assert_eq!(
            push.blob.bytes,
            br#"{"tasks":[{"completed":true,"id":"1","text":"a"}],"type":"tasks_overview"}"#
                .to_vec()
        );
    }
    assert_eq!(state.tasks(), vec![item("1", "a", true)]);
}

#[test]
fn a_command_from_an_unregistered_channel_reaches_the_registered_ones_only() {
    let mut state = TodoState::new();
    state.register_channel(1);
    let pushes =
        state.websocket(99, WsMessageType::Text, frame(r#"{"action":"get_tasks"}"#)).unwrap();
    assert_eq!(targets(&pushes), vec![1]);
}

#[test]
fn toggle_on_a_channel_tells_every_channel() {
    let mut state =
        restored(vec![item("1", "a", false), item("2", "b", false)], Vec::new());
    state.register_channel(1);
    state.register_channel(2);
    let pushes = state
        .websocket(1, WsMessageType::Text, frame(r#"{"action":"toggle_task","id":"2"}"#))
        .unwrap();
    assert_eq!(targets(&pushes), vec![1, 2]);
    let expected = [
        r#"{"task":{"completed":true,"id":"2","text":"b"},"#,
        r#""tasks":[{"completed":false,"id":"1","text":"a"},"#,
        r#"{"completed":true,"id":"2","text":"b"}],"type":"task_toggled"}"#,
    ]
    .concat();
    for push in &pushes {
        assert_eq!(String::from_utf8(push.blob.bytes.clone()).unwrap(), expected);
    }
    assert_eq!(state.tasks(), vec![item("1", "a", false), item("2", "b", true)]);
    state
        .websocket(2, WsMessageType::Text, frame(r#"{"action":"toggle_task","id":"2"}"#))
        .unwrap();
    assert_eq!(state.tasks(), vec![item("1", "a", false), item("2", "b", false)]);
}

#[test]
fn a_blank_text_is_dropped_without_a_frame() {
    let mut state = restored(vec![item("1", "a", false)], Vec::new());
    state.register_channel(1);
    for text in [r#"{"action":"add_task","text":""}"#, r#"{"action":"add_task","text":"   "}"#] {
        let outcome = state.websocket(1, WsMessageType::Text, frame(text));
        assert!(matches!(outcome, Err(TodoError::EmptyText)));
    }
    assert!(matches!(
        state.apply(Command::AddTask { text: "\t".to_string() }),
        Err(TodoError::EmptyText)
    ));
    assert_eq!(state.tasks(), vec![item("1", "a", false)]);
}

#[test]
fn frames_that_cannot_be_decoded_are_dropped() {
    let mut state = restored(vec![item("1", "a", false)], Vec::new());
    state.register_channel(1);
    let cases: Vec<(Vec<u8>, TodoError)> = vec![
        (b"not json".to_vec(), TodoError::MalformedMessage),
        (vec![0xff], TodoError::MalformedMessage),
        (b"{}".to_vec(), TodoError::MalformedMessage),
        (br#"{"action":"add_task"}"#.to_vec(), TodoError::MalformedMessage),
        (br#"{"action":"remove_task","id":"1"}"#.to_vec(), TodoError::UnknownAction),
    ];
    for (bytes, expected) in cases {
        let outcome = state.websocket(1, WsMessageType::Text, LazyLoadBlob { mime: None, bytes });
        assert_eq!(outcome.err(), Some(expected));
    }
    assert_eq!(state.tasks(), vec![item("1", "a", false)]);
    assert_eq!(state.channels(), vec![1]);
}

#[test]
fn a_binary_frame_is_rejected() {
    let mut state = TodoState::new();
    state.register_channel(1);
    let outcome =
        state.websocket(1, WsMessageType::Binary, frame(r#"{"action":"add_task","text":"x"}"#));
    assert_eq!(outcome.err(), Some(TodoError::BinaryFrame));
    assert!(state.tasks().is_empty());
    assert_eq!(state.channels(), vec![1]);
}

#[test]
fn ping_and_pong_are_acknowledged_on_their_channel_only() {
    let mut state = restored(vec![item("1", "a", false)], Vec::new());
    state.register_channel(1);
    state.register_channel(2);
    for kind in [WsMessageType::Ping, WsMessageType::Pong] {
        let pushes = state.websocket(2, kind, nothing()).unwrap();
        assert_eq!(pushes.len(), 1);
        assert_eq!(pushes[0].channel_id, 2);
        assert_eq!(pushes[0].message_type, WsMessageType::Text);
        assert_eq!(pushes[0].blob.mime.as_deref(), Some("application/json"));
        assert_eq!(pushes[0].blob.bytes, br#"{"type":"ack"}"#.to_vec());
    }
    let pushes = state.websocket(77, WsMessageType::Ping, frame("ignored")).unwrap();
    assert_eq!(targets(&pushes), vec![77]);
    assert_eq!(state.tasks(), vec![item("1", "a", false)]);
    assert_eq!(sorted(state.channels()), vec![1, 2]);
}

#[test]
fn close_unregisters_the_channel() {
    let mut state = restored(vec![item("1", "a", false)], Vec::new());
    state.register_channel(1);
    state.register_channel(2);
    let pushes = state.websocket(1, WsMessageType::Close, nothing()).unwrap();
    assert!(pushes.is_empty());
    assert_eq!(state.channels(), vec![2]);
    assert!(state.websocket(1, WsMessageType::Close, nothing()).unwrap().is_empty());
    assert_eq!(state.channels(), vec![2]);
    let pushes =
        state.websocket(1, WsMessageType::Text, frame(r#"{"action":"get_tasks"}"#)).unwrap();
    assert_eq!(targets(&pushes), vec![2]);
    state.unregister_channel(2);
    assert!(state.channels().is_empty());
    assert_eq!(state.tasks(), vec![item("1", "a", false)]);
}

#[test]
fn events_on_one_channel_follow_the_order_of_the_changes() {
    let mut state = TodoState::new();
    state.register_channel(1);
    let mut lengths = Vec::new();
    for text in ["a", "b", "c"] {
        let pushes = state.apply(Command::AddTask { text: text.to_string() }).unwrap();
        assert_eq!(pushes.len(), 1);
        let event = document(&pushes[0]);
        assert_eq!(event["task"]["text"].as_str(), Some(text));
        lengths.push(event["tasks"].as_array().unwrap().len());
    }
    assert_eq!(lengths, vec![1, 2, 3]);
    let texts: Vec<String> = state.tasks().iter().map(|task| task.text().clone()).collect();
    assert_eq!(texts, vec!["a", "b", "c"]);
}

#[test]
fn states_are_equal_when_tasks_channels_and_peers_are() {
    let mut one = restored(vec![item("1", "a", false)], vec!["p.os".to_string()]);
    let mut two = restored(vec![item("1", "a", false)], vec!["p.os".to_string()]);
    assert_eq!(one, two);
    one.register_channel(3);
    one.register_channel(4);
    assert_ne!(one, two);
    two.register_channel(4);
    assert_ne!(one, two);
    two.register_channel(3);
    assert_eq!(one, two);
    two.unregister_channel(3);
    two.register_channel(5);
    assert_ne!(one, two);
    assert_ne!(one, restored(vec![item("1", "a", true)], vec!["p.os".to_string()]));
    assert_ne!(TodoState::new(), restored(Vec::new(), vec!["p.os".to_string()]));
    assert_ne!(
        restored(Vec::new(), vec!["p.os".to_string()]),
        restored(Vec::new(), vec!["q.os".to_string()])
    );
    assert_eq!(TodoState::new(), TodoState::default());
}

#[test]
fn a_copy_of_a_state_is_equal_and_independent() {
    let mut state = restored(vec![item("1", "a", false)], vec!["p.os".to_string()]);
    state.register_channel(1);
    state.register_channel(2);
    let copy = state.clone();
    assert_eq!(copy, state);
    assert_eq!(copy.tasks(), vec![item("1", "a", false)]);
    assert_eq!(sorted(copy.channels()), vec![1, 2]);
    assert_eq!(copy.clients(), vec!["p.os".to_string()]);
    state.apply(Command::ToggleTask { id: "1".to_string() }).unwrap();
    state.unregister_channel(1);
    assert_ne!(copy, state);
    assert_eq!(copy.tasks(), vec![item("1", "a", false)]);
    assert_eq!(sorted(copy.channels()), vec![1, 2]);
}
