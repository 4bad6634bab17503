use vstd::prelude::*;
use crate::diagnostic::{Diagnostic, DiagnosticView};
use crate::document::Document;
use crate::lints::Lint;
use crate::scan::{command_findings, pattern_present, scan_commands, CommandRule};

verus! {

/// Flags, as errors, every assignment that reaches the reserved variable V0044.
pub struct V44AssignmentLint;

impl Lint for V44AssignmentLint {
    open spec fn title(&self) -> Seq<char> {
        "V0044 should not be assigned to"@
    }

    open spec fn findings(&self, doc: Document) -> Seq<DiagnosticView> {
        command_findings(CommandRule::ReservedVariable, doc)
    }

    open spec fn triggered(&self, doc: Document) -> bool {
        pattern_present(CommandRule::ReservedVariable, doc)
    }

    fn name(&self) -> (r: &'static str) {
        "V0044 should not be assigned to"
    }

    fn test(&self, map: &Document) -> (r: Vec<Diagnostic>) {
        scan_commands(CommandRule::ReservedVariable, map)
    }
}

} // verus!
