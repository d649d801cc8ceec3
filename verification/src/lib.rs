//! Watches a project's sources, rebuilds its documentation when they change
//! and tells the pages that show it to reload.
//!
//! The crate holds the decisions: which paths count as a change, what the
//! rebuild coordinator does with each event, what the build command and the
//! served address are. Running processes, watching the file system and
//! serving HTTP are left to the program that drives it.

pub mod browser;
pub mod coordinator;
pub mod event;
pub mod ignore;
pub mod job;
pub mod page;
pub mod reload;
pub mod startup;
pub mod text;
pub mod trace;

pub use browser::{browser_launch, Launch};
pub use coordinator::{survey, Action, Coordinator, Input, Phase, Window};
pub use event::{Event, EventQueue, Priority, Signal};
pub use ignore::{default_ignores, FilterDecision, IgnoreFilter};
pub use job::{
    cargo_doc_command, BuildJob, Command, ExitOutcome, JobState, ProcessEnd, Restart,
};
pub use page::{fallback_document, theme_injection, Theme};
pub use reload::ReloadBroadcaster;
pub use startup::{
    choose_port, docs_url, resolve_package, root_package, CargoDocOptions, StartupError,
    PREFERRED_PORT,
};
pub use text::{decimal_text, replace_char, starts_with, str_eq};
