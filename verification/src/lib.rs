//! The verified core of a multi-window shell that clears each window's surface.
//!
//! The shell around it owns the operating-system windows and the GPU handles. This crate
//! holds what is decided about them: which presentation settings a surface gets, when a
//! resize is taken up, and what the shell does in answer to each window event.

pub mod app;
pub mod context;
pub mod error;
pub mod event;
pub mod surface;
pub mod window;
