use vstd::prelude::*;
use crate::diagnostic::{Diagnostic, DiagnosticView};
use crate::document::Document;
use crate::lints::Lint;
use crate::scan::{command_findings, pattern_present, scan_commands, CommandRule};

verus! {

/// Warns of every map scroll at the instant speed, which the common event CEV0294 does better.
pub struct InstantScrollLint;

impl Lint for InstantScrollLint {
    open spec fn title(&self) -> Seq<char> {
        "CEV0294 should be used for instant scroll"@
    }

    open spec fn findings(&self, doc: Document) -> Seq<DiagnosticView> {
        command_findings(CommandRule::InstantScroll, doc)
    }

    open spec fn triggered(&self, doc: Document) -> bool {
        pattern_present(CommandRule::InstantScroll, doc)
    }

    fn name(&self) -> (r: &'static str) {
        "CEV0294 should be used for instant scroll"
    }

    fn test(&self, map: &Document) -> (r: Vec<Diagnostic>) {
        scan_commands(CommandRule::InstantScroll, map)
    }
}

} // verus!
