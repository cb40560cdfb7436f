//! The state of one instance and the handlers that act on it.
//!
//! Every handler runs to its end before the next one starts. A handler changes
//! the state and hands back the frames that have to be sent; sending them is
//! left to the caller.

use vstd::prelude::*;
use crate::channels::ChannelRegistry;
use crate::command::{command_of_bytes, Command, CommandView};
use crate::error::TodoError;
use crate::event::{broadcast, is_broadcast, ws_ack, EventView, SyncEvent};
use crate::frame::{LazyLoadBlob, PushView, WsMessageType, WsPush};
use crate::ident::ID_LENGTH;
use crate::store::{first_with_id, has_id, lemma_first_with_id_exists, toggled, TaskStore};
use crate::task::{TaskView, TodoItem};
use crate::text::blank;

verus! {

/// The state as mathematical values.
pub struct StateView {
    /// The tasks, in insertion order.
    pub tasks: Seq<TaskView>,
    /// The channels that are open.
    pub ws_channels: Set<u32>,
    /// The addresses of the known peers.
    pub clients: Seq<Seq<char>>,
}

impl StateView {
    /// The state of an instance that has just started.
    pub open spec fn empty() -> StateView {
        StateView { tasks: Seq::empty(), ws_channels: Set::empty(), clients: Seq::empty() }
    }
}

/// What is written to durable storage after every change: the tasks and the
/// peers. The open channels are left out, since none of them outlives the
/// process.
#[derive(Debug)]
pub struct Snapshot {
    pub tasks: Vec<TodoItem>,
    pub clients: Vec<String>,
}

/// What a handler answers: the frames to send, or the reason why the request
/// was dropped.
pub open spec fn outcome_view(outcome: Result<Vec<WsPush>, TodoError>) -> Result<
    Seq<PushView>,
    TodoError,
> {
    match outcome {
        Ok(pushes) => Ok(pushes.deep_view()),
        Err(error) => Err(error),
    }
}

/// Whether `after` and `outcome` are what a command makes of the state `before`.
///
/// A request for the list changes nothing and sends the list to every open
/// channel. A new task with a blank text is dropped; otherwise the task is
/// appended, not yet done, under an identifier of the usual length, and every
/// open channel hears of it. A toggle of an unknown identifier is dropped;
/// otherwise the earliest task with the identifier is inverted and every open
/// channel hears of it. A dropped command leaves the state as it was. No
/// command touches the channels or the peers.
pub open spec fn command_outcome(
    before: StateView,
    after: StateView,
    command: CommandView,
    outcome: Result<Seq<PushView>, TodoError>,
) -> bool {
    &&& after.ws_channels == before.ws_channels
    &&& after.clients == before.clients
    &&& match command {
        CommandView::GetTasks => {
            &&& after.tasks == before.tasks
            &&& outcome matches Ok(pushes)
            &&& is_broadcast(
                pushes,
                before.ws_channels,
                EventView::TasksOverview { tasks: before.tasks },
            )
        },
        CommandView::AddTask { text } => if blank(text) {
            &&& after.tasks == before.tasks
            &&& outcome is Err && outcome->Err_0 == TodoError::EmptyText
        } else {
            &&& after.tasks.len() == before.tasks.len() + 1
            &&& after.tasks == before.tasks.push(after.tasks.last())
            &&& after.tasks.last().text == text
            &&& !after.tasks.last().completed
            &&& after.tasks.last().id.len() == ID_LENGTH
            &&& outcome matches Ok(pushes)
            &&& is_broadcast(
                pushes,
                before.ws_channels,
                EventView::TaskAdded { task: after.tasks.last(), tasks: after.tasks },
            )
        },
        CommandView::ToggleTask { id } => {
            &&& after.tasks == toggled(before.tasks, id)
            &&& if has_id(before.tasks, id) {
                &&& outcome matches Ok(pushes)
                &&& is_broadcast(
                    pushes,
                    before.ws_channels,
                    EventView::TaskToggled {
                        task: after.tasks[first_with_id(before.tasks, id)],
                        tasks: after.tasks,
                    },
                )
            } else {
                outcome is Err && outcome->Err_0 == TodoError::NotFound
            }
        },
    }
}

/// Whether `after` and `outcome` are what a frame that arrived on `channel_id`
/// makes of the state `before`.
///
/// A text frame is a command; one that cannot be decoded is dropped. A binary
/// frame is dropped. A ping or a pong is answered with an acknowledgement on
/// the channel it came from. A close removes the channel from the open ones.
pub open spec fn frame_outcome(
    before: StateView,
    after: StateView,
    channel_id: u32,
    message_type: WsMessageType,
    bytes: Seq<u8>,
    outcome: Result<Seq<PushView>, TodoError>,
) -> bool {
    match message_type {
        WsMessageType::Text => match command_of_bytes(bytes) {
            Ok(command) => command_outcome(before, after, command, outcome),
            Err(error) => after == before && outcome is Err && outcome->Err_0 == error,
        },
        WsMessageType::Binary => {
            &&& after == before
            &&& outcome is Err && outcome->Err_0 == TodoError::BinaryFrame
        },
        WsMessageType::Ping | WsMessageType::Pong => {
            &&& after == before
            &&& outcome is Ok && outcome->Ok_0 == seq![EventView::Ack.push(channel_id)]
        },
        WsMessageType::Close => {
            &&& after == StateView {
                ws_channels: before.ws_channels.remove(channel_id),
                ..before
            }
            &&& outcome is Ok && outcome->Ok_0 == Seq::<PushView>::empty()
        },
    }
}

/// Everything one instance holds: the tasks, the open channels and the peers
/// it knows of.
#[derive(Debug)]
pub struct TodoState {
    tasks: TaskStore,
    ws_channels: ChannelRegistry,
    clients: Vec<String>,
}

impl View for TodoState {
    type V = StateView;

    closed spec fn view(&self) -> StateView {
        StateView {
            tasks: self.tasks@,
            ws_channels: self.ws_channels@,
            clients: self.clients.deep_view(),
        }
    }
}

impl Clone for TodoState {
    fn clone(&self) -> (copy: TodoState)
        ensures
            copy@ == self@,
    {
        TodoState {
            tasks: self.tasks.clone(),
            ws_channels: self.ws_channels.clone(),
            clients: self.clients(),
        }
    }
}

/// Whether two lists of texts hold the same texts in the same order.
fn same_texts(left: &Vec<String>, right: &Vec<String>) -> (same: bool)
    ensures
        same == (left.deep_view() == right.deep_view()),
{
    if left.len() != right.len() {
        assert(left.deep_view().len() != right.deep_view().len());
        return false;
    }
    let mut i: usize = 0;
    while i < left.len()
        invariant
            i <= left.len(),
            left.len() == right.len(),
            forall|j: int| 0 <= j < i ==> (#[trigger] left@[j])@ == right@[j]@,
        decreases left.len() - i,
    {
        if left[i] != right[i] {
            assert(left.deep_view()[i as int] != right.deep_view()[i as int]);
            return false;
        }
        i += 1;
    }
    assert(left.deep_view() =~= right.deep_view());
    true
}

impl PartialEq for TodoState {
    fn eq(&self, other: &TodoState) -> (same: bool) {
        self.tasks == other.tasks && self.ws_channels == other.ws_channels && same_texts(
            &self.clients,
            &other.clients,
        )
    }
}

impl vstd::std_specs::cmp::PartialEqSpecImpl for TodoState {
    open spec fn obeys_eq_spec() -> bool {
        true
    }

    open spec fn eq_spec(&self, other: &TodoState) -> bool {
        self@ == other@
    }
}

impl Default for TodoState {
    fn default() -> (state: TodoState)
        ensures
            state@ == StateView::empty(),
    {
        TodoState::new()
    }
}

impl TodoState {
    /// The state of an instance that has just started: no tasks, no channels, no peers.
    pub fn new() -> (state: TodoState)
        ensures
            state@ == StateView::empty(),
    {
        let state = TodoState {
            tasks: TaskStore::new(),
            ws_channels: ChannelRegistry::new(),
            clients: Vec::new(),
        };
        assert(state.clients.deep_view() =~= Seq::<Seq<char>>::empty());
        state
    }

    /// Puts the state back to that of an instance that has just started.
    pub fn initialize(&mut self)
        ensures
            final(self)@ == StateView::empty(),
    {
        *self = TodoState::new();
    }

    /// The part of the state that is persisted.
    pub fn snapshot(&self) -> (snapshot: Snapshot)
        ensures
            snapshot.tasks.deep_view() == self@.tasks,
            snapshot.clients.deep_view() == self@.clients,
    {
        Snapshot { tasks: self.tasks(), clients: self.clients() }
    }

    /// The state after a restart from a snapshot: its tasks and peers, and no
    /// open channel.
    pub fn restore(snapshot: Snapshot) -> (state: TodoState)
        ensures
            state@ == (StateView {
                tasks: snapshot.tasks.deep_view(),
                ws_channels: Set::empty(),
                clients: snapshot.clients.deep_view(),
            }),
    {
        TodoState {
            tasks: TaskStore::from_tasks(snapshot.tasks),
            ws_channels: ChannelRegistry::new(),
            clients: snapshot.clients,
        }
    }

    /// A copy of the tasks, in insertion order.
    pub fn tasks(&self) -> (tasks: Vec<TodoItem>)
        ensures
            tasks.deep_view() == self@.tasks,
    {
        self.tasks.list()
    }

    /// A copy of the addresses of the known peers.
    pub fn clients(&self) -> (clients: Vec<String>)
        ensures
            clients.deep_view() == self@.clients,
    {
        self.clients.clone()
    }

    /// The open channels, each once, in no particular order.
    pub fn channels(&self) -> (ids: Vec<u32>)
        ensures
            ids@.no_duplicates(),
            ids@.to_set() == self@.ws_channels,
    {
        self.ws_channels.members()
    }

    /// Notes that a subscriber has connected on `channel_id`.
    pub fn register_channel(&mut self, channel_id: u32)
        ensures
            final(self)@ == (StateView {
                ws_channels: old(self)@.ws_channels.insert(channel_id),
                ..old(self)@
            }),
    {
        self.ws_channels.register(channel_id);
    }

    /// Notes that the subscriber on `channel_id` is gone.
    pub fn unregister_channel(&mut self, channel_id: u32)
        ensures
            final(self)@ == (StateView {
                ws_channels: old(self)@.ws_channels.remove(channel_id),
                ..old(self)@
            }),
    {
        self.ws_channels.unregister(channel_id);
    }

    /// Hands a peer the whole list. The state stays as it is, whoever asks and
    /// whatever the request says.
    pub fn share_tasks(&mut self, request: String) -> (tasks: Vec<TodoItem>)
        ensures
            final(self)@ == old(self)@,
            tasks.deep_view() == old(self)@.tasks,
    {
        self.tasks.list()
    }

    /// Takes in a peer's tasks: all of them are appended, in order, also those
    /// whose identifier the list holds already. No subscriber is told.
    pub fn merge_tasks(&mut self, tasks: Vec<TodoItem>) -> (done: Result<(), String>)
        ensures
            done is Ok,
            final(self)@ == (StateView {
                tasks: old(self)@.tasks + tasks.deep_view(),
                ..old(self)@
            }),
    {
        self.tasks.merge(tasks);
        Ok(())
    }

    /// Answers a query for the whole list, whatever the request says.
    pub fn get_tasks(&self, request: String) -> (tasks: Result<Vec<TodoItem>, String>)
        ensures
            tasks is Ok,
            tasks->Ok_0.deep_view() == self@.tasks,
    {
        Ok(self.tasks.list())
    }

    /// Carries out a decoded command.
    pub fn apply(&mut self, command: Command) -> (outcome: Result<Vec<WsPush>, TodoError>)
        ensures
            command_outcome(old(self)@, final(self)@, command@, outcome_view(outcome)),
    {
        match command {
            Command::GetTasks => {
                let event = SyncEvent::TasksOverview { tasks: self.tasks.list() };
                Ok(broadcast(&self.ws_channels, &event))
            },
            Command::AddTask { text } => {
                match self.tasks.create(text.as_str()) {
                    Ok(task) => {
                        let event = SyncEvent::TaskAdded { task, tasks: self.tasks.list() };
                        Ok(broadcast(&self.ws_channels, &event))
                    },
                    Err(error) => Err(error),
                }
            },
            Command::ToggleTask { id } => {
                proof {
                    if has_id(self@.tasks, id@) {
                        lemma_first_with_id_exists(self@.tasks, id@);
                    }
                }
                match self.tasks.toggle(id.as_str()) {
                    Ok(task) => {
                        let event = SyncEvent::TaskToggled { task, tasks: self.tasks.list() };
                        Ok(broadcast(&self.ws_channels, &event))
                    },
                    Err(error) => Err(error),
                }
            },
        }
    }

    /// Handles one frame that arrived on the channel `channel_id`.
    pub fn websocket(
        &mut self,
        channel_id: u32,
        message_type: WsMessageType,
        blob: LazyLoadBlob,
    ) -> (outcome: Result<Vec<WsPush>, TodoError>)
        ensures
            frame_outcome(
                old(self)@,
                final(self)@,
                channel_id,
                message_type,
                blob@.bytes,
                outcome_view(outcome),
            ),
    {
        match message_type {
            WsMessageType::Text => {
                match Command::from_bytes(blob.bytes) {
                    Ok(command) => self.apply(command),
                    Err(error) => Err(error),
                }
            },
            WsMessageType::Binary => Err(TodoError::BinaryFrame),
            WsMessageType::Ping | WsMessageType::Pong => {
                let mut pushes: Vec<WsPush> = Vec::new();
                pushes.push(ws_ack(channel_id));
                assert(pushes.deep_view() =~= seq![EventView::Ack.push(channel_id)]);
                Ok(pushes)
            },
            WsMessageType::Close => {
                self.ws_channels.unregister(channel_id);
                let pushes: Vec<WsPush> = Vec::new();
                assert(pushes.deep_view() =~= Seq::<PushView>::empty());
                Ok(pushes)
            },
        }
    }
}

} // verus!
