//! State synchronisation and command orchestration for a torrent dashboard.
//!
//! The crate holds the state that sits between a remote torrent daemon and a
//! terminal front end: the latest snapshot of the daemon's torrents, a fuzzy
//! filter over it, a selection cursor, a stack of modal overlays, the
//! add-torrent wizard and the registry of issued commands. Every transition
//! is a function from state and event to next state and effect; the caller
//! performs the effects (remote calls, painting) and hands back the events.

pub mod torrent;
pub mod command;
pub mod matching;
pub mod filter;
pub mod selection;
pub mod table;
pub mod input;
pub mod action;
pub mod outcome;
pub mod popups;
pub mod add_magnet;
pub mod filter_bar;
pub mod overlay;
pub mod status_task;
pub mod tabs;
pub mod torrents_tab;
pub mod main_window;
pub mod render;
