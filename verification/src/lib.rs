//! Filter-and-stream core of a directory-tree collector.
//!
//! A traversal hands this library one candidate path at a time. The library
//! decides whether the path is kept ([`filter`]), renders the record that is
//! written for it ([`record`]), plans how much of the file's content follows
//! ([`content`]), and keeps the state of the run ([`run`]). Reading files and
//! writing to the sink is left to the caller.

pub mod config;
pub mod content;
pub mod filter;
pub mod paths;
pub mod pattern;
pub mod record;
pub mod run;
pub mod text;

pub use config::AppConfig;
pub use config::Cli;
pub use config::ConfigError;
pub use config::Scope;
pub use config::WalkSettings;
pub use content::stream_file_content;
pub use content::ContentPlan;
pub use content::FileStart;
pub use content::LOOKAHEAD_LEN;
pub use filter::should_process;
pub use record::process_file;
pub use record::RecordStart;
pub use run::Action;
pub use run::Event;
pub use run::Orchestrator;
pub use run::RunState;
pub use run::WriteOutcome;
