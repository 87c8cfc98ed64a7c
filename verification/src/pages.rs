//! The views the runtime ships: a menu, a shared-state counter page, a
//! stopwatch page, and a live log page.

pub mod counter;
pub mod logs;
pub mod menu;
pub mod timer;
