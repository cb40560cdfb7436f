//! A single task and its mathematical model.

use vstd::prelude::*;

verus! {

/// What a task is, as plain mathematical values.
pub struct TaskView {
    pub id: Seq<char>,
    pub text: Seq<char>,
    pub completed: bool,
}

impl TaskView {
    /// A task that is not yet done.
    pub open spec fn open(id: Seq<char>, text: Seq<char>) -> TaskView {
        TaskView { id, text, completed: false }
    }

    /// The same task with its completion flag inverted.
    pub open spec fn flipped(self) -> TaskView {
        TaskView { id: self.id, text: self.text, completed: !self.completed }
    }
}

/// A unit of work: an identifier fixed at creation, a text and a completion flag.
#[derive(Debug)]
pub struct TodoItem {
    id: String,
    text: String,
    completed: bool,
}

impl View for TodoItem {
    type V = TaskView;

    closed spec fn view(&self) -> TaskView {
        TaskView { id: self.id@, text: self.text@, completed: self.completed }
    }
}

impl DeepView for TodoItem {
    type V = TaskView;

    open spec fn deep_view(&self) -> TaskView {
        self@
    }
}

impl Clone for TodoItem {
    fn clone(&self) -> (copy: TodoItem)
        ensures
            copy@ == self@,
    {
        TodoItem { id: self.id.clone(), text: self.text.clone(), completed: self.completed }
    }
}

impl PartialEq for TodoItem {
    fn eq(&self, other: &TodoItem) -> (same: bool) {
        self.id == other.id && self.text == other.text && self.completed == other.completed
    }
}

impl vstd::std_specs::cmp::PartialEqSpecImpl for TodoItem {
    open spec fn obeys_eq_spec() -> bool {
        true
    }

    open spec fn eq_spec(&self, other: &TodoItem) -> bool {
        self@ == other@
    }
}

impl TodoItem {
    /// Builds a task from its three parts.
    pub fn new(id: String, text: String, completed: bool) -> (task: TodoItem)
        ensures
            task@ == (TaskView { id: id@, text: text@, completed }),
    {
        TodoItem { id, text, completed }
    }

    /// The task's identifier.
    pub fn id(&self) -> (id: &String)
        ensures
            id@ == self@.id,
    {
        &self.id
    }

    /// The task's text.
    pub fn text(&self) -> (text: &String)
        ensures
            text@ == self@.text,
    {
        &self.text
    }

    /// Whether the task is done.
    pub fn completed(&self) -> (done: bool)
        ensures
            done == self@.completed,
    {
        self.completed
    }
}

} // verus!
