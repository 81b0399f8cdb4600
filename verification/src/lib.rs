//! Supervision of package-manager commands: output sanitising and
//! demultiplexing, progress extraction, escalating cancellation, search
//! debouncing and the event-driven application state machine.

pub mod text;
pub mod sanitize;
pub mod progress;
pub mod demux;
pub mod types;
pub mod parser;
pub mod catalog;
pub mod supervisor;
pub mod debounce;
pub mod input;
pub mod config;
pub mod sysinfo;
pub mod prompt;
pub mod state;
pub mod app;
pub mod events;
pub mod filter;
pub mod results;
pub mod runs;
pub mod keys;
pub mod launch;
pub mod settings;
pub mod update_keys;
pub mod install_keys;
pub mod remove_keys;
pub mod shell_keys;
pub mod query_keys;
pub mod settings_keys;
pub mod orchestrator;
pub mod cancel;
pub mod layout;
pub mod report;
pub mod listing;
pub mod wellformed;
