//! The logic of the JARVIS desktop client: the protocol that it speaks with the daemon,
//! the state that it keeps, and the widgets that it shows.
//!
//! Everything here computes. Sockets, files, threads and windows are the business of the
//! program around it, which hands in what it observed and carries out what comes back.

pub mod app_state;
pub mod client;
pub mod command;
pub mod connection;
pub mod event;
pub mod json;
pub mod keyed;
pub mod paths;
pub mod serving;
pub mod settings;
pub mod shell;
pub mod text;
pub mod ui_event;
pub mod widgets;
