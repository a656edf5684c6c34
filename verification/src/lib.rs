//! A menu-bar control surface for a local container service stack.
//!
//! The library holds the decision logic of the application: how a run of the
//! orchestration CLI is turned into a success or failure payload, which
//! invocation each service operation launches, and how tray-menu and
//! tray-icon events are dispatched to actions. Launching processes and
//! drawing the tray icon are left to the surrounding front end.

pub mod command;
pub mod services;
pub mod text;
pub mod tray;
