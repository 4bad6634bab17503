//! A diagnostic engine that checks one game-map document against a fixed,
//! ordered battery of rules, and reassembles the reports of many documents
//! in identifier order.
pub mod batch;
pub mod browser;
pub mod diagnostic;
pub mod document;
pub mod encoding;
pub mod lints;
pub mod pages;
pub mod report;
pub mod scan;
pub mod text;
pub mod verdict;

pub use diagnostic::{
    all_resolve, located_at, rendered, resolves, Diagnostic, DiagnosticEvent, DiagnosticLevel,
    DiagnosticPage, DiagnosticView,
};
pub use document::{Command, Document, Event, Graphic, Instruction, Page, Trigger, MAX_RECORDED};
pub use encoding::CodePage;
pub use lints::blue_sign::BlueSignLint;
pub use lints::comment::CommentLint;
pub use lints::instant_scroll::InstantScrollLint;
pub use lints::pade_transfer::PadeTransferLint;
pub use lints::parallel_erase::ParallelEraseLint;
pub use lints::show_picture::ShowPictureLint;
pub use lints::special_skills::SpecialSkillsLint;
pub use lints::tissues::TissueLint;
pub use lints::v44_assignment::V44AssignmentLint;
pub use lints::weather::WeatherLint;
pub use lints::{Lint, LINT_COUNT};
pub use report::{analyze, LogLevel, ReportEntry};
