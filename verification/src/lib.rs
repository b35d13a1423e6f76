//! A verified core for a small interactive file-manager shell.
//!
//! The library holds everything the shell decides: splitting an input line
//! into a verb and arguments, resolving missing arguments through prompts,
//! parsing octal permission strings, and turning each (state, event) pair
//! into the filesystem actions and messages the session should produce.
//! The surrounding process performs the actions (filesystem calls, terminal
//! I/O) and feeds their outcomes back as events.

pub mod laws;
pub mod machine;
pub mod octal;
pub mod text;
pub mod verbs;

pub use machine::Action;
pub use machine::Event;
pub use machine::Mode;
pub use machine::Severity;
pub use machine::Shell;

pub use octal::parse_octal_u32;
pub use text::split_line;
pub use text::trim_str;
pub use verbs::Verb;
pub use verbs::arity_of;
pub use verbs::parse_verb;
pub use verbs::prompt_label;
