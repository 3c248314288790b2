//! Verified core of a bulk media retrieval run.
//!
//! A run reads an ordered list of media URLs, fans out one worker per URL
//! against an external download tool, collects one completion notice per
//! worker, joins the workers, and finally relocates the shared run folder
//! (pruning partial-transfer artifacts first) to a destination root that is
//! either caller-supplied or a platform default.
//!
//! This crate holds the decision and bookkeeping logic of that run with
//! proved contracts; the thin shell that performs process, thread and
//! filesystem work lives outside it and mirrors these contracts.

pub mod collector;
pub mod loglevel;
pub mod paths;
pub mod relocate;
pub mod render;
pub mod tasks;

pub use render::render_duration_readable;
pub use render::run_folder_name;
pub use loglevel::get_string_from_loglevel;
pub use loglevel::LogLevel;
pub use paths::evaluate_move_path;
