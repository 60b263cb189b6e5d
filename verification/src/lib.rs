//! A tabbed to-do list, modelled as a message-driven state machine.
//!
//! The application state holds one task list per tab, the active tab, and
//! the text being composed for the next task. Every change to the state goes
//! through [`state::TaskListApp::update`], whose effect is pinned down by the
//! specification-level transition function [`state::step`]. The general
//! properties of the machine (tab isolation, involutive toggling, and so on)
//! are stated and proved in [`laws`].

pub mod laws;
pub mod state;
pub mod trim;
