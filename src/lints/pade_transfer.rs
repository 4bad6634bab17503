use vstd::prelude::*;
use crate::diagnostic::{Diagnostic, DiagnosticView};
use crate::document::Document;
use crate::lints::Lint;
use crate::pages::{page_findings, page_pattern_present, scan_pages, PageRule};

verus! {

/// Flags, as errors, every page that transfers the player while movement is frozen, unless a comment excuses the page.
pub struct PadeTransferLint;

impl Lint for PadeTransferLint {
    open spec fn title(&self) -> Seq<char> {
        "Transitioning maps should be unPADEed"@
    }

    open spec fn findings(&self, doc: Document) -> Seq<DiagnosticView> {
        page_findings(PageRule::TransferWhileFrozen, doc)
    }

    open spec fn triggered(&self, doc: Document) -> bool {
        page_pattern_present(PageRule::TransferWhileFrozen, doc)
    }

    fn name(&self) -> (r: &'static str) {
        "Transitioning maps should be unPADEed"
    }

    fn test(&self, map: &Document) -> (r: Vec<Diagnostic>) {
        scan_pages(PageRule::TransferWhileFrozen, map)
    }
}

} // verus!
