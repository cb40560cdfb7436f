//! The authoritative, ordered collection of tasks.

use vstd::prelude::*;
use crate::error::TodoError;
use crate::ident::{fresh_id, ID_LENGTH};
use crate::task::{TaskView, TodoItem};
use crate::text::{blank, is_blank};

verus! {

/// Whether some task in `tasks` carries the identifier `id`.
pub open spec fn has_id(tasks: Seq<TaskView>, id: Seq<char>) -> bool {
    exists|i: int| 0 <= i < tasks.len() && (#[trigger] tasks[i]).id == id
}

/// Whether `i` is the position of the earliest task in `tasks` that carries `id`.
pub open spec fn is_first_with_id(tasks: Seq<TaskView>, id: Seq<char>, i: int) -> bool {
    &&& 0 <= i < tasks.len()
    &&& tasks[i].id == id
    &&& forall|j: int| 0 <= j < i ==> (#[trigger] tasks[j]).id != id
}

/// The position of the earliest task that carries `id`; meaningful when there is one.
pub open spec fn first_with_id(tasks: Seq<TaskView>, id: Seq<char>) -> int {
    choose|i: int| is_first_with_id(tasks, id, i)
}

/// The collection after a request to toggle `id`: the earliest task with that
/// identifier has its flag inverted and keeps its place; without such a task
/// nothing changes.
pub open spec fn toggled(tasks: Seq<TaskView>, id: Seq<char>) -> Seq<TaskView> {
    if has_id(tasks, id) {
        let i = first_with_id(tasks, id);
        tasks.update(i, tasks[i].flipped())
    } else {
        tasks
    }
}

/// Whether no two tasks share an identifier.
pub open spec fn distinct_ids(tasks: Seq<TaskView>) -> bool {
    forall|i: int, j: int|
        0 <= i < j < tasks.len() ==> (#[trigger] tasks[i]).id != (#[trigger] tasks[j]).id
}

/// The earliest position with a given identifier is unique.
pub proof fn lemma_first_with_id_unique(tasks: Seq<TaskView>, id: Seq<char>, i: int, j: int)
    requires
        is_first_with_id(tasks, id, i),
        is_first_with_id(tasks, id, j),
    ensures
        i == j,
{
    if i < j {
        assert(tasks[i].id != id);
    } else if j < i {
        assert(tasks[j].id != id);
    }
}

/// Once a position is known to be the earliest one with `id`, it is the one that
/// `first_with_id` names.
pub proof fn lemma_first_with_id_is(tasks: Seq<TaskView>, id: Seq<char>, i: int)
    requires
        is_first_with_id(tasks, id, i),
    ensures
        has_id(tasks, id),
        first_with_id(tasks, id) == i,
{
    lemma_first_with_id_unique(tasks, id, i, first_with_id(tasks, id));
}

/// Where some task carries `id`, one of them is the earliest: the position
/// that `first_with_id` names.
pub proof fn lemma_first_with_id_exists(tasks: Seq<TaskView>, id: Seq<char>)
    requires
        has_id(tasks, id),
    ensures
        is_first_with_id(tasks, id, first_with_id(tasks, id)),
{
    let some = choose|i: int| 0 <= i < tasks.len() && (#[trigger] tasks[i]).id == id;
    lemma_first_before(tasks, id, some);
}

/// Below any position that carries `id` there is an earliest one.
proof fn lemma_first_before(tasks: Seq<TaskView>, id: Seq<char>, k: int)
    requires
        0 <= k < tasks.len(),
        tasks[k].id == id,
    ensures
        exists|i: int| is_first_with_id(tasks, id, i),
    decreases k,
{
    if exists|j: int| 0 <= j < k && (#[trigger] tasks[j]).id == id {
        let j = choose|j: int| 0 <= j < k && (#[trigger] tasks[j]).id == id;
        lemma_first_before(tasks, id, j);
    } else {
        assert(is_first_with_id(tasks, id, k));
    }
}

/// The tasks, in the order in which they were added.
#[derive(Debug)]
pub struct TaskStore {
    tasks: Vec<TodoItem>,
}

impl View for TaskStore {
    type V = Seq<TaskView>;

    closed spec fn view(&self) -> Seq<TaskView> {
        self.tasks.deep_view()
    }
}

impl Clone for TaskStore {
    fn clone(&self) -> (copy: TaskStore)
        ensures
            copy@ == self@,
    {
        TaskStore { tasks: self.list() }
    }
}

impl PartialEq for TaskStore {
    fn eq(&self, other: &TaskStore) -> (same: bool) {
        let same = self.tasks == other.tasks;
        proof {
            if same {
                assert(self@ =~= other@);
            } else if self@ == other@ {
                assert(self.tasks.len() == self@.len() && other.tasks.len() == other@.len());
                assert forall|i: int| 0 <= i < self.tasks.len() implies (#[trigger] self.tasks[i])@
                    == other.tasks[i]@ by {
                    assert(self@[i] == other@[i]);
                }
            }
        }
        same
    }
}

impl vstd::std_specs::cmp::PartialEqSpecImpl for TaskStore {
    open spec fn obeys_eq_spec() -> bool {
        true
    }

    open spec fn eq_spec(&self, other: &TaskStore) -> bool {
        self@ == other@
    }
}

impl TaskStore {
    /// An empty store.
    pub fn new() -> (store: TaskStore)
        ensures
            store@ == Seq::<TaskView>::empty(),
    {
        TaskStore { tasks: Vec::new() }
    }

    /// A store that holds the given tasks in the given order.
    pub fn from_tasks(tasks: Vec<TodoItem>) -> (store: TaskStore)
        ensures
            store@ == tasks.deep_view(),
    {
        TaskStore { tasks }
    }

    /// The number of tasks.
    pub fn len(&self) -> (n: usize)
        ensures
            n == self@.len(),
    {
        self.tasks.len()
    }

    /// A copy of every task, in insertion order.
    pub fn list(&self) -> (tasks: Vec<TodoItem>)
        ensures
            tasks.deep_view() == self@,
    {
        self.tasks.clone()
    }

    /// Appends a task with the identifier `id` and the text `text`, not yet done,
    /// unless the text is blank.
    pub fn create_with_id(&mut self, id: String, text: &str) -> (made: Result<TodoItem, TodoError>)
        ensures
            blank(text@) ==> made is Err && made->Err_0 == TodoError::EmptyText,
            blank(text@) ==> final(self)@ == old(self)@,
            !blank(text@) ==> made is Ok && made->Ok_0@ == TaskView::open(id@, text@),
            !blank(text@) ==> final(self)@ == old(self)@.push(TaskView::open(id@, text@)),
    {
        if is_blank(text) {
            return Err(TodoError::EmptyText);
        }
        let task = TodoItem::new(id, text.to_owned(), false);
        let copy = task.clone();
        self.tasks.push(task);
        Ok(copy)
    }

    /// Appends a task with the text `text` under a newly generated identifier,
    /// unless the text is blank.
    pub fn create(&mut self, text: &str) -> (made: Result<TodoItem, TodoError>)
        ensures
            blank(text@) ==> made is Err && made->Err_0 == TodoError::EmptyText,
            blank(text@) ==> final(self)@ == old(self)@,
            !blank(text@) ==> made is Ok && made->Ok_0@.id.len() == ID_LENGTH,
            !blank(text@) ==> made->Ok_0@ == TaskView::open(made->Ok_0@.id, text@),
            !blank(text@) ==> final(self)@ == old(self)@.push(made->Ok_0@),
    {
        if is_blank(text) {
            return Err(TodoError::EmptyText);
        }
        self.create_with_id(fresh_id(), text)
    }

    /// Inverts the completion flag of the earliest task that carries `id`.
    pub fn toggle(&mut self, id: &str) -> (changed: Result<TodoItem, TodoError>)
        ensures
            final(self)@ == toggled(old(self)@, id@),
            has_id(old(self)@, id@) ==> changed is Ok && changed->Ok_0@ == old(self)@[first_with_id(
                old(self)@,
                id@,
            )].flipped(),
            !has_id(old(self)@, id@) ==> changed is Err && changed->Err_0 == TodoError::NotFound,
    {
        let wanted = id.to_owned();
        let mut i: usize = 0;
        while i < self.tasks.len()
            invariant
                i <= self.tasks.len(),
                wanted@ == id@,
                self.tasks == old(self).tasks,
                forall|j: int| 0 <= j < i ==> (#[trigger] self@[j]).id != id@,
            decreases self.tasks.len() - i,
        {
            if *self.tasks[i].id() == wanted {
                let task = TodoItem::new(
                    self.tasks[i].id().clone(),
                    self.tasks[i].text().clone(),
                    !self.tasks[i].completed(),
                );
                let copy = task.clone();
                proof {
                    lemma_first_with_id_is(old(self)@, id@, i as int);
                }
                self.tasks.set(i, task);
                return Ok(copy);
            }
            i += 1;
        }
        Err(TodoError::NotFound)
    }

    /// Appends every incoming task, in order, whatever identifiers the store holds already.
    pub fn merge(&mut self, incoming: Vec<TodoItem>)
        ensures
            final(self)@ == old(self)@ + incoming.deep_view(),
    {
        let mut rest = incoming;
        self.tasks.append(&mut rest);
    }
}

} // verus!
