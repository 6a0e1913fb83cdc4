//! Verified core of a terminal front end for the Docker daemon: the view
//! stack, key bindings, configuration, state reducers and the parsing and
//! formatting rules that sit between the daemon and the screen.

pub mod text;
pub mod ansi;
pub mod logstream;
pub mod details;
pub mod daemon;
pub mod runform;
pub mod paths;
pub mod search;
pub mod listing;
pub mod ui;
pub mod update;
pub mod help;
pub mod handlers;
pub mod mode;
pub mod event;
pub mod config;
pub mod keymap;
pub mod collections;
pub mod resource;
pub mod state;
pub mod reducers;
pub mod reducer;
pub mod poller;
pub mod table;
pub mod highlight;
