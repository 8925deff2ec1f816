//! The logic of a desktop launcher for a local web service.
//!
//! The launcher starts the service as a child process, watches its output for the moment it is
//! ready, and shows its page, or that of another machine, below a permanent top bar. This library
//! holds what the launcher decides; a program around it asks the library what to do and does it.
//!
//! - [`address`]: from what the user typed to an address that can be opened.
//! - [`pages`]: one page per address, under a stable label.
//! - [`state`]: the commands, as steps on the launcher's state that yield effects.
//! - [`effect`]: the effects, and what they do to pages.
//! - [`command`]: the processes that are run.
//! - [`deps`]: the startup check, question by question.
//! - [`config`]: the remembered addresses, step by step.
//! - [`window`]: the main window, the tray and the window system's events.
//! - [`job`]: tying child processes to the launcher's lifetime.
//! - [`laws`], [`service_laws`], [`page_laws`]: what holds across commands, of the web service and
//!   of pages.
pub mod address;
pub mod command;
pub mod config;
pub mod deps;
pub mod effect;
pub mod error;
pub mod job;
pub mod laws;
pub mod page_laws;
pub mod pages;
pub mod service_laws;
pub mod state;
pub mod text;
pub mod window;
