//! Lifecycle of a screen-capture session, and the conversion of legacy colour
//! themes.
//!
//! The capture half models the conversation with the operating system's
//! screen-recording subsystem as plain values: a snapshot of what can be
//! captured, a filter and a configuration derived from it, and a session
//! whose state machine decides what to ask of the system next and whether a
//! delivered sample reaches the frame sink. The surrounding program performs
//! the system calls and feeds their outcomes back in.

pub mod error;
pub mod config;
pub mod content;
pub mod filter;
pub mod lifecycle;
pub mod frame;
pub mod session;
pub mod text;
pub mod theme;
