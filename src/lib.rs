//! Scans source trees for lines that mark unfinished work ("todo", "hack",
//! "workaround", ...), while exempting lines that cite an external reference
//! (`pending: https://tracker.example/123`).
//!
//! The exemption is a separate formal pattern, tested before the marker
//! pattern; a configured marker list replaces the built-in one.

pub mod collect;
pub mod config;
pub mod laws;
pub mod lint;
pub mod pattern;
pub mod scan;
pub mod text;

pub use collect::{is_candidate_entry, plan_root, PathKind, RootPlan};
pub use config::{
    default_skip_paths, default_task_names, generate_skip_path_pattern, generate_task_pattern,
    join, CONFIGURATION_FILENAME, DEFAULT_FORMAL_TASK_PATTERN, SKIP_PATH_PATTERN_PREFIX,
    SKIP_PATH_PATTERN_SUFFIX, TASK_PATTERN_PREFIX, TASK_PATTERN_SUFFIX, TEXT_MIMETYPE_PATTERN,
};
pub use lint::{Linter, Rules, TodolintError, Warning};
pub use pattern::Pattern;
pub use scan::{normalize_path, Candidate, Request, Scan, Verdict};
pub use text::decode_lines;
