//! Core of a terminal application that tidies the playlists of a video
//! service, written so that every decision it takes is a verified function
//! of plain values.
//!
//! The crate never touches a terminal, a clock, a thread or the network.
//! Each component of the user interface is a small state machine: the caller
//! performs the outside work it asks for (switch the terminal mode, wait for
//! input, run a hook) and reports back what happened.
//!
//! * [`app`]: the application state, a `running` flag.
//! * [`event`]: the events that drive the loop.
//! * [`source`]: the queue that merges timer ticks and terminal input.
//! * [`terminal`]: set-up and tear-down of the terminal, step by step.
//! * [`main_loop`]: the draw / wait / dispatch cycle and its shutdown.
//! * [`playlist`]: which playlists and which videos to show.

pub mod app;
pub mod event;
pub mod main_loop;
pub mod playlist;
pub mod source;
pub mod terminal;
