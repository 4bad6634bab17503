use vstd::prelude::*;
use crate::diagnostic::{Diagnostic, DiagnosticView};
use crate::document::Document;
use crate::lints::Lint;
use crate::scan::{command_findings, pattern_present, scan_commands, CommandRule};

verus! {

/// Warns of every Show Picture: Move Picture looks the same and costs less.
pub struct ShowPictureLint;

impl Lint for ShowPictureLint {
    open spec fn title(&self) -> Seq<char> {
        "MovePicture is preferrable to ShowPicture"@
    }

    open spec fn findings(&self, doc: Document) -> Seq<DiagnosticView> {
        command_findings(CommandRule::ShowPicture, doc)
    }

    open spec fn triggered(&self, doc: Document) -> bool {
        pattern_present(CommandRule::ShowPicture, doc)
    }

    fn name(&self) -> (r: &'static str) {
        "MovePicture is preferrable to ShowPicture"
    }

    fn test(&self, map: &Document) -> (r: Vec<Diagnostic>) {
        scan_commands(CommandRule::ShowPicture, map)
    }
}

} // verus!
