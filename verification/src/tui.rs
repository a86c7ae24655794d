//! The terminal front end's state machine: what each key press and each
//! daemon response does to the screen state, and which commands it sends
//! to the daemon. Reading keys, drawing and the socket stay outside.

pub mod app;
pub mod dialogs;
pub mod input;
pub mod ipc;
pub mod keys;
pub mod navigation;
pub mod screens;
