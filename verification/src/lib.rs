//! The decisions of a desktop shell for dsh: what is checked and installed at startup, how
//! the server is started, watched and stopped, and how dsh and the application are brought
//! up to date.
//!
//! Everything that touches the machine is asked for in the words of [`protocol`].

pub mod command;
pub mod download;
pub mod dsh;
pub mod environment;
pub mod laws;
pub mod laws_forms;
pub mod laws_machine;
pub mod laws_runs;
pub mod laws_setup;
pub mod laws_text;
pub mod laws_updates;
pub mod laws_words;
pub mod node;
pub mod npm;
pub mod order;
pub mod outside;
pub mod protocol;
pub mod release;
pub mod scripts;
pub mod server;
pub mod setup;
pub mod state;
pub mod text;
pub mod update;
pub mod wait;
pub mod window;
