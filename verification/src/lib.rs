//! Core of an interactive terminal application: a session guard that tracks
//! raw-mode ownership of the terminal, an event multiplexer that merges a
//! keyboard stream with a periodic tick, and the application state machine
//! that the run loop drives.

pub mod action;
pub mod app;
pub mod config;
pub mod error;
pub mod event;
pub mod session;
