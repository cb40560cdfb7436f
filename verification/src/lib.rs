//! A shared task list, verified with Verus.
//!
//! One instance holds an ordered list of tasks and the set of push channels
//! that are open. Subscribers send commands over their channel; every change
//! is told to all of them with one event each. Two instances bring each other
//! up to date by sharing and merging their lists.
//!
//! The modules, from the leaves up:
//!
//! - [`task`], [`store`]: a task, and the ordered collection of tasks with
//!   `list`, `create`, `toggle` and `merge`.
//! - [`channels`]: the registry of open channels.
//! - [`command`]: the commands of the subscribers, decoded from JSON.
//! - [`event`], [`frame`]: the events for the subscribers, encoded as JSON,
//!   and the frames that carry them.
//! - [`state`]: the state of an instance and its handlers. A handler changes
//!   the state and returns the frames to send; it sends nothing itself.
//! - [`laws`]: what holds of these whatever the requests are.
//! - [`error`], [`legacy`]: the reasons for dropping a request, and the
//!   legacy response types.
//!
//! Three modules rest on code that is not verified here, and say so item by
//! item: [`json`] on `serde_json`, [`ident`] on `uuid`, and [`text`] on the
//! standard library's view of white space and UTF-8. Everything else is proved
//! from what those items state.

pub mod channels;
pub mod command;
pub mod error;
pub mod event;
pub mod frame;
pub mod ident;
pub mod json;
pub mod laws;
pub mod legacy;
pub mod state;
pub mod store;
pub mod task;
pub mod text;
