//! The events that the list sends to its subscribers, and their wire form.
//!
//! Every event is one JSON object with a member `type` that names its kind.

use vstd::prelude::*;
use vstd::string::StringSliceAdditionalSpecFns;
use vstd::utf8::encode_utf8;
use serde_json::Value;
use crate::channels::ChannelRegistry;
use crate::frame::{BlobView, LazyLoadBlob, PushView, WsMessageType, WsPush};
use crate::json::{
    array_value, bool_value, insert_member, json_of, json_written, new_object, object_value,
    text_value, to_text, Json,
};
use crate::task::{TaskView, TodoItem};

verus! {

/// An event for the subscribers.
#[derive(Debug)]
pub enum SyncEvent {
    /// The whole list, sent when a subscriber asks for it.
    TasksOverview { tasks: Vec<TodoItem> },
    /// A task was created; `tasks` is the list with it.
    TaskAdded { task: TodoItem, tasks: Vec<TodoItem> },
    /// A task's completion flag was inverted; `tasks` is the list after that.
    TaskToggled { task: TodoItem, tasks: Vec<TodoItem> },
    /// The answer to a liveness probe.
    Ack,
}

/// An event as a mathematical value.
pub enum EventView {
    TasksOverview { tasks: Seq<TaskView> },
    TaskAdded { task: TaskView, tasks: Seq<TaskView> },
    TaskToggled { task: TaskView, tasks: Seq<TaskView> },
    Ack,
}

impl View for SyncEvent {
    type V = EventView;

    open spec fn view(&self) -> EventView {
        match *self {
            SyncEvent::TasksOverview { tasks } => EventView::TasksOverview {
                tasks: tasks.deep_view(),
            },
            SyncEvent::TaskAdded { task, tasks } => EventView::TaskAdded {
                task: task@,
                tasks: tasks.deep_view(),
            },
            SyncEvent::TaskToggled { task, tasks } => EventView::TaskToggled {
                task: task@,
                tasks: tasks.deep_view(),
            },
            SyncEvent::Ack => EventView::Ack,
        }
    }
}

impl EventView {
    /// The value of the member `type`.
    pub open spec fn kind(self) -> Seq<char> {
        match self {
            EventView::TasksOverview { .. } => "tasks_overview"@,
            EventView::TaskAdded { .. } => "task_added"@,
            EventView::TaskToggled { .. } => "task_toggled"@,
            EventView::Ack => "ack"@,
        }
    }

    /// The event as a JSON object.
    pub open spec fn json(self) -> Json {
        let kind = Map::<Seq<char>, Json>::empty().insert("type"@, Json::Text(self.kind()));
        match self {
            EventView::TasksOverview { tasks } => Json::Object(
                kind.insert("tasks"@, tasks_json(tasks)),
            ),
            EventView::TaskAdded { task, tasks } => Json::Object(
                kind.insert("task"@, task_json(task)).insert("tasks"@, tasks_json(tasks)),
            ),
            EventView::TaskToggled { task, tasks } => Json::Object(
                kind.insert("task"@, task_json(task)).insert("tasks"@, tasks_json(tasks)),
            ),
            EventView::Ack => Json::Object(kind),
        }
    }

    /// The payload that carries the event: its JSON text in UTF-8, marked as JSON.
    pub open spec fn blob(self) -> BlobView {
        BlobView {
            mime: Some("application/json"@),
            bytes: encode_utf8(json_written(self.json())),
        }
    }

    /// The text frame that carries the event to one channel.
    pub open spec fn push(self, channel_id: u32) -> PushView {
        PushView { channel_id, message_type: WsMessageType::Text, blob: self.blob() }
    }
}

/// A task as a JSON object.
pub open spec fn task_json(task: TaskView) -> Json {
    Json::Object(
        Map::<Seq<char>, Json>::empty().insert("id"@, Json::Text(task.id)).insert(
            "text"@,
            Json::Text(task.text),
        ).insert("completed"@, Json::Bool(task.completed)),
    )
}

/// A list of tasks as a JSON array, in the same order.
pub open spec fn tasks_json(tasks: Seq<TaskView>) -> Json {
    Json::Array(tasks.map_values(|task: TaskView| task_json(task)))
}

/// Whether `pushes` deliver `event` to the channels in `members`: one text
/// frame for each of them, none for any other channel, all with the same
/// payload. The order of the frames is left open.
pub open spec fn is_broadcast(pushes: Seq<PushView>, members: Set<u32>, event: EventView) -> bool {
    let targets = pushes.map_values(|push: PushView| push.channel_id);
    &&& targets.no_duplicates()
    &&& targets.to_set() == members
    &&& forall|i: int| 0 <= i < pushes.len() ==> #[trigger] pushes[i] == event.push(targets[i])
}

/// Builds the JSON object of a task.
pub fn task_to_json(task: &TodoItem) -> (value: Value)
    ensures
        json_of(value) == task_json(task@),
{
    let mut object = new_object();
    insert_member(&mut object, "id".to_owned(), text_value(task.id().clone()));
    insert_member(&mut object, "text".to_owned(), text_value(task.text().clone()));
    insert_member(&mut object, "completed".to_owned(), bool_value(task.completed()));
    object_value(object)
}

/// Builds the JSON array of a list of tasks.
pub fn tasks_to_json(tasks: &Vec<TodoItem>) -> (value: Value)
    ensures
        json_of(value) == tasks_json(tasks.deep_view()),
{
    let mut items: Vec<Value> = Vec::new();
    let mut i: usize = 0;
    while i < tasks.len()
        invariant
            i <= tasks.len(),
            items@.len() == i,
            forall|j: int| 0 <= j < i ==> json_of(#[trigger] items@[j]) == task_json(tasks@[j]@),
        decreases tasks.len() - i,
    {
        items.push(task_to_json(&tasks[i]));
        i += 1;
    }
    assert(items@.map_values(|item: Value| json_of(item)) =~= tasks.deep_view().map_values(
        |task: TaskView| task_json(task),
    ));
    array_value(items)
}

impl SyncEvent {
    /// The name of the event's kind, as it stands in the member `type`.
    pub fn kind(&self) -> (name: &'static str)
        ensures
            name@ == self@.kind(),
    {
        match self {
            SyncEvent::TasksOverview { .. } => "tasks_overview",
            SyncEvent::TaskAdded { .. } => "task_added",
            SyncEvent::TaskToggled { .. } => "task_toggled",
            SyncEvent::Ack => "ack",
        }
    }

    /// Builds the JSON object of the event.
    pub fn to_json(&self) -> (value: Value)
        ensures
            json_of(value) == self@.json(),
    {
        let mut object = new_object();
        insert_member(&mut object, "type".to_owned(), text_value(self.kind().to_owned()));
        match self {
            SyncEvent::TasksOverview { tasks } => {
                insert_member(&mut object, "tasks".to_owned(), tasks_to_json(tasks));
            },
            SyncEvent::TaskAdded { task, tasks } => {
                insert_member(&mut object, "task".to_owned(), task_to_json(task));
                insert_member(&mut object, "tasks".to_owned(), tasks_to_json(tasks));
            },
            SyncEvent::TaskToggled { task, tasks } => {
                insert_member(&mut object, "task".to_owned(), task_to_json(task));
                insert_member(&mut object, "tasks".to_owned(), tasks_to_json(tasks));
            },
            SyncEvent::Ack => {},
        }
        object_value(object)
    }

    /// Writes the event out as the payload of a text frame.
    pub fn to_blob(&self) -> (blob: LazyLoadBlob)
        ensures
            blob@ == self@.blob(),
    {
        let text = to_text(&self.to_json());
        LazyLoadBlob {
            mime: Some("application/json".to_owned()),
            bytes: text.as_str().as_bytes_vec(),
        }
    }

    /// The text frame that carries the event to one channel.
    pub fn push_to(&self, channel_id: u32) -> (push: WsPush)
        ensures
            push@ == self@.push(channel_id),
    {
        WsPush { channel_id, message_type: WsMessageType::Text, blob: self.to_blob() }
    }
}

/// The frames that deliver `event` to every registered channel.
pub fn broadcast(channels: &ChannelRegistry, event: &SyncEvent) -> (pushes: Vec<WsPush>)
    ensures
        is_broadcast(pushes.deep_view(), channels@, event@),
{
    let blob = event.to_blob();
    let members = channels.members();
    let mut pushes: Vec<WsPush> = Vec::new();
    let mut i: usize = 0;
    while i < members.len()
        invariant
            i <= members.len(),
            pushes@.len() == i,
            blob@ == event@.blob(),
            forall|j: int| 0 <= j < i ==> (#[trigger] pushes@[j])@ == event@.push(members@[j]),
        decreases members.len() - i,
    {
        pushes.push(
            WsPush {
                channel_id: members[i],
                message_type: WsMessageType::Text,
                blob: blob.clone(),
            },
        );
        i += 1;
    }
    proof {
        let targets = pushes.deep_view().map_values(|push: PushView| push.channel_id);
        assert(targets =~= members@);
    }
    pushes
}

/// The frame that answers a request for the whole list on one channel.
pub fn ws_get_tasks(channel_id: u32, tasks: Vec<TodoItem>) -> (push: WsPush)
    ensures
        push@ == (EventView::TasksOverview { tasks: tasks.deep_view() }).push(channel_id),
{
    (SyncEvent::TasksOverview { tasks }).push_to(channel_id)
}

/// The frame that tells one channel of a new task.
pub fn ws_add_task(channel_id: u32, task: TodoItem, tasks: Vec<TodoItem>) -> (push: WsPush)
    ensures
        push@ == (EventView::TaskAdded { task: task@, tasks: tasks.deep_view() }).push(channel_id),
{
    (SyncEvent::TaskAdded { task, tasks }).push_to(channel_id)
}

/// The frame that tells one channel of a toggled task.
pub fn ws_toggle_task(channel_id: u32, task: TodoItem, tasks: Vec<TodoItem>) -> (push: WsPush)
    ensures
        push@ == (EventView::TaskToggled { task: task@, tasks: tasks.deep_view() }).push(
            channel_id,
        ),
{
    (SyncEvent::TaskToggled { task, tasks }).push_to(channel_id)
}

/// The frame that answers a liveness probe on one channel.
pub fn ws_ack(channel_id: u32) -> (push: WsPush)
    ensures
        push@ == EventView::Ack.push(channel_id),
{
    SyncEvent::Ack.push_to(channel_id)
}

} // verus!
