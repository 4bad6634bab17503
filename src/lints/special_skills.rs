use vstd::prelude::*;
use crate::diagnostic::{Diagnostic, DiagnosticView};
use crate::document::Document;
use crate::lints::Lint;
use crate::scan::{command_findings, pattern_present, scan_commands, CommandRule};

verus! {

/// Flags, as errors, every skill check that no skills annotation precedes in its event.
pub struct SpecialSkillsLint;

impl Lint for SpecialSkillsLint {
    open spec fn title(&self) -> Seq<char> {
        "Special skill usage must be annotated"@
    }

    open spec fn findings(&self, doc: Document) -> Seq<DiagnosticView> {
        command_findings(CommandRule::UnannotatedSkill, doc)
    }

    open spec fn triggered(&self, doc: Document) -> bool {
        pattern_present(CommandRule::UnannotatedSkill, doc)
    }

    fn name(&self) -> (r: &'static str) {
        "Special skill usage must be annotated"
    }

    fn test(&self, map: &Document) -> (r: Vec<Diagnostic>) {
        scan_commands(CommandRule::UnannotatedSkill, map)
    }
}

} // verus!
