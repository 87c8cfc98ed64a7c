//! A reactive runtime for terminal user interfaces: shared state cells with
//! coalesced change notification, cancellable background-task tracking,
//! route navigation with a back-stack, a component capability interface,
//! and the decision core of the event loop that merges input with redraw
//! requests.

pub mod cell;
pub mod component;
pub mod dispatch;
pub mod errors;
pub mod event;
pub mod model;
pub mod pages;
pub mod root;
pub mod router;
pub mod scheduler;
pub mod text;
pub mod tracker;
