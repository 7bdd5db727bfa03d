//! Scaffolding of UI component boilerplate from text templates.
//!
//! The crate holds the decisions of the tool: how the argument list becomes a
//! [`Command`], how the environment becomes a [`Config`], how a template is
//! rendered, and in which order the file system is asked to do what. It never
//! touches the file system or the process itself; a driver performs each
//! requested [`Action`] and reports back what happened as an [`Event`].

pub mod command;
pub mod component;
pub mod config;
pub mod laws;
pub mod options;
pub mod path;
pub mod processor;
pub mod text;

pub use command::{Command, CommandError, CreateTarget};
pub use component::{Action, CreateComponent, CreateError, CreateUi, Event, Progress};
pub use config::{Config, ConfigError, Environment};
pub use options::Options;
pub use processor::{CommandProcessor, Dispatch, Task, HELP_MESSAGE};
