//! Control core of a local proxy manager: the settings a front end edits, the
//! status registers it polls, and the decisions taken when a subscription is
//! downloaded, refreshed, selected or deleted.
//!
//! Every function here is a step from plain values to plain values. Whoever
//! calls them owns the locks, the threads, the network and the files.

pub mod settings;
pub mod control;
pub mod primitive;
pub mod naming;
pub mod api;
pub mod history;
pub mod listing;
