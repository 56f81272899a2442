//! A manager of markdown notes in a directory, with the settings of the
//! tool around it.
//!
//! The library decides and computes; it makes no call on the file system
//! itself. An operation that needs the file system is a state machine: it
//! begins as a [`filesystem::Step`] that asks for one call, and each answer
//! that its caller hands to `resume` brings the next call or the result.
//!
//! ```ignore
//! let mut step = NotesManager::new("./notes").list_notes();
//! let notes = loop {
//!     match step {
//!         Step::Ask(state, request) => step = state.resume(perform(request)),
//!         Step::Done(outcome) => break outcome,
//!     }
//! };
//! ```
//!
//! The module [`world`] models the file system, and [`laws`] states what
//! the operations come to when they are run against it.

pub mod cli;
pub mod config;
pub mod content;
pub mod creation;
pub mod errors;
pub mod filename;
pub mod filesystem;
pub mod laws;
pub mod listing;
pub mod manager;
pub mod notes;
pub mod numbers;
pub mod store;
pub mod text;
pub mod utils;
pub mod world;

pub use config::MemoriaConfig;
pub use errors::MemoriaError;
pub use manager::NotesManager;
pub use notes::Note;
