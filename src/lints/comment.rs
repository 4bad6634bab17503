use vstd::prelude::*;
use crate::diagnostic::{Diagnostic, DiagnosticView};
use crate::document::Document;
use crate::lints::Lint;
use crate::scan::{command_findings, pattern_present, scan_commands, CommandRule};

verus! {

/// Warns of every comment line wider than its box, with its width and the limit.
pub struct CommentLint;

impl Lint for CommentLint {
    open spec fn title(&self) -> Seq<char> {
        "Comments should not be too long"@
    }

    open spec fn findings(&self, doc: Document) -> Seq<DiagnosticView> {
        command_findings(CommandRule::LongComment, doc)
    }

    open spec fn triggered(&self, doc: Document) -> bool {
        pattern_present(CommandRule::LongComment, doc)
    }

    fn name(&self) -> (r: &'static str) {
        "Comments should not be too long"
    }

    fn test(&self, map: &Document) -> (r: Vec<Diagnostic>) {
        scan_commands(CommandRule::LongComment, map)
    }
}

} // verus!
