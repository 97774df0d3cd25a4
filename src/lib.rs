//! Lifecycle of an application that binds a root component to a GUI
//! toolkit's application object.
//!
//! The library decides what happens and in which order; the toolkit does the
//! work. Running an application consumes it and yields the ordered steps the
//! driver performs: launch the root component with its init parameters,
//! register the activation handler, then hand control to the toolkit's event
//! loop with the command-line arguments passed through verbatim. Each
//! activation adds the root window to the application and shows it.
mod lifecycle;
mod app;

pub use lifecycle::{
    Step, WindowOp, activation_ops, is_run_plan, lemma_activation_shows_window,
    lemma_run_launches_once, on_activate, texts,
};
pub use app::{AppSource, RelmApp};
