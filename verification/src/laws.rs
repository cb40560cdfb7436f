//! What holds of the task list whatever the requests are.

use vstd::prelude::*;
use crate::event::{is_broadcast, EventView};
use crate::command::CommandView;
use crate::error::TodoError;
use crate::frame::PushView;
use crate::state::{command_outcome, StateView};
use crate::store::{
    distinct_ids, first_with_id, has_id, is_first_with_id, lemma_first_with_id_exists,
    lemma_first_with_id_is, toggled,
};
use crate::task::TaskView;

verus! {

/// A new task under an identifier that no task carries yet keeps the
/// identifiers distinct, and comes last.
pub proof fn law_create_keeps_ids_distinct(tasks: Seq<TaskView>, task: TaskView)
    requires
        distinct_ids(tasks),
        !has_id(tasks, task.id),
    ensures
        distinct_ids(tasks.push(task)),
        is_first_with_id(tasks.push(task), task.id, tasks.len() as int),
{
    let grown = tasks.push(task);
    assert forall|j: int| 0 <= j < tasks.len() implies (#[trigger] grown[j]).id != task.id by {
        assert(tasks[j].id != task.id);
    }
}

/// A toggle changes one completion flag at most: the list keeps its length and
/// its order, and every task keeps its identifier and its text.
pub proof fn law_toggle_keeps_the_rest(tasks: Seq<TaskView>, id: Seq<char>)
    ensures
        toggled(tasks, id).len() == tasks.len(),
        forall|i: int|
            0 <= i < tasks.len() ==> (#[trigger] toggled(tasks, id)[i]).id == tasks[i].id
                && toggled(tasks, id)[i].text == tasks[i].text,
        forall|i: int|
            0 <= i < tasks.len() && !is_first_with_id(tasks, id, i) ==> #[trigger] toggled(
                tasks,
                id,
            )[i] == tasks[i],
        distinct_ids(tasks) ==> distinct_ids(toggled(tasks, id)),
{
    if has_id(tasks, id) {
        lemma_first_with_id_exists(tasks, id);
    }
}

/// Toggling the same identifier twice gives the list back as it was.
pub proof fn law_toggle_twice(tasks: Seq<TaskView>, id: Seq<char>)
    ensures
        toggled(toggled(tasks, id), id) == tasks,
{
    if has_id(tasks, id) {
        lemma_first_with_id_exists(tasks, id);
        let i = first_with_id(tasks, id);
        let once = toggled(tasks, id);
        assert(is_first_with_id(once, id, i)) by {
            assert forall|j: int| 0 <= j < i implies (#[trigger] once[j]).id != id by {
                assert(tasks[j].id != id);
            }
        }
        lemma_first_with_id_is(once, id, i);
        assert(toggled(once, id) =~= tasks);
    }
}

/// Toggling an identifier that no task carries changes nothing.
pub proof fn law_toggle_unknown(tasks: Seq<TaskView>, id: Seq<char>)
    requires
        !has_id(tasks, id),
    ensures
        toggled(tasks, id) == tasks,
{
}

/// A merge makes the list longer by the number of incoming tasks, whatever
/// their identifiers: what was there stays in front, and every incoming task
/// follows in its order, none left out.
pub proof fn law_merge_appends_all(tasks: Seq<TaskView>, incoming: Seq<TaskView>)
    ensures
        (tasks + incoming).len() == tasks.len() + incoming.len(),
        forall|i: int| 0 <= i < tasks.len() ==> #[trigger] (tasks + incoming)[i] == tasks[i],
        forall|i: int|
            0 <= i < incoming.len() ==> #[trigger] (tasks + incoming)[tasks.len() + i]
                == incoming[i],
{
}

/// A merge of a task whose identifier the list holds already leaves two tasks
/// with that identifier.
pub proof fn law_merge_keeps_duplicates(
    tasks: Seq<TaskView>,
    incoming: Seq<TaskView>,
    i: int,
    j: int,
)
    requires
        0 <= i < tasks.len(),
        0 <= j < incoming.len(),
        tasks[i].id == incoming[j].id,
    ensures
        !distinct_ids(tasks + incoming),
{
    let merged = tasks + incoming;
    assert(merged[i].id == merged[tasks.len() + j].id);
}

/// A broadcast reaches every open channel with exactly one frame, and that
/// frame carries the event.
pub proof fn law_broadcast_reaches_each_once(
    pushes: Seq<PushView>,
    members: Set<u32>,
    event: EventView,
    channel_id: u32,
)
    requires
        is_broadcast(pushes, members, event),
        members.contains(channel_id),
    ensures
        exists|i: int|
            0 <= i < pushes.len() && #[trigger] pushes[i] == event.push(channel_id) && forall|
                j: int,
            |
                0 <= j < pushes.len() && (#[trigger] pushes[j]).channel_id == channel_id ==> j == i,
{
    let targets = pushes.map_values(|push: PushView| push.channel_id);
    assert(targets.to_set().contains(channel_id));
    let i = choose|i: int| 0 <= i < targets.len() && targets[i] == channel_id;
    assert(pushes[i] == event.push(targets[i]));
    assert forall|j: int|
        0 <= j < pushes.len() && (#[trigger] pushes[j]).channel_id == channel_id implies j == i by {
        assert(targets[j] == channel_id);
    }
}

/// A broadcast sends nothing to a channel that is not open, and as many frames
/// as there are open channels.
pub proof fn law_broadcast_reaches_no_other(
    pushes: Seq<PushView>,
    members: Set<u32>,
    event: EventView,
)
    requires
        is_broadcast(pushes, members, event),
    ensures
        pushes.len() == members.len(),
        forall|i: int|
            0 <= i < pushes.len() ==> members.contains((#[trigger] pushes[i]).channel_id),
{
    let targets = pushes.map_values(|push: PushView| push.channel_id);
    targets.unique_seq_to_set();
    assert forall|i: int| 0 <= i < pushes.len() implies members.contains(
        (#[trigger] pushes[i]).channel_id,
    ) by {
        assert(targets.to_set().contains(targets[i]));
    }
}

/// A command that is dropped leaves the state exactly as it was, and a command
/// is dropped for two reasons only: a blank text, or an unknown identifier.
pub proof fn law_dropped_command_changes_nothing(
    before: StateView,
    after: StateView,
    command: CommandView,
    outcome: Result<Seq<PushView>, TodoError>,
)
    requires
        command_outcome(before, after, command, outcome),
        outcome is Err,
    ensures
        after == before,
        outcome->Err_0 == TodoError::EmptyText || outcome->Err_0 == TodoError::NotFound,
{
}

/// A command that is carried out sends one frame to every open channel, and
/// where it changed the list, that frame holds the whole list as it is now.
pub proof fn law_command_tells_every_channel(
    before: StateView,
    after: StateView,
    command: CommandView,
    outcome: Result<Seq<PushView>, TodoError>,
    channel_id: u32,
)
    requires
        command_outcome(before, after, command, outcome),
        outcome is Ok,
        before.ws_channels.contains(channel_id),
    ensures
        exists|event: EventView|
            {
                &&& is_broadcast(outcome->Ok_0, before.ws_channels, event)
                &&& match command {
                    CommandView::GetTasks => event == (EventView::TasksOverview {
                        tasks: after.tasks,
                    }),
                    CommandView::AddTask { .. } => event == (EventView::TaskAdded {
                        task: after.tasks.last(),
                        tasks: after.tasks,
                    }),
                    CommandView::ToggleTask { id } => event == (EventView::TaskToggled {
                        task: after.tasks[first_with_id(before.tasks, id)],
                        tasks: after.tasks,
                    }),
                }
                &&& exists|i: int|
                    0 <= i < outcome->Ok_0.len() && #[trigger] outcome->Ok_0[i] == event.push(
                        channel_id,
                    ) && forall|j: int|
                        0 <= j < outcome->Ok_0.len() && (#[trigger] outcome->Ok_0[j]).channel_id
                            == channel_id ==> j == i
            },
{
    let pushes = outcome->Ok_0;
    let event = match command {
        CommandView::GetTasks => EventView::TasksOverview { tasks: after.tasks },
        CommandView::AddTask { .. } => EventView::TaskAdded {
            task: after.tasks.last(),
            tasks: after.tasks,
        },
        CommandView::ToggleTask { id } => EventView::TaskToggled {
            task: after.tasks[first_with_id(before.tasks, id)],
            tasks: after.tasks,
        },
    };
    law_broadcast_reaches_each_once(pushes, before.ws_channels, event, channel_id);
}

} // verus!
