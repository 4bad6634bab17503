use vstd::prelude::*;
use crate::diagnostic::{Diagnostic, DiagnosticView};
use crate::document::Document;
use crate::lints::Lint;
use crate::pages::{page_findings, page_pattern_present, scan_pages, PageRule};

verus! {

/// Warns of every parallel page that runs costly instructions and never erases its event.
pub struct ParallelEraseLint;

impl Lint for ParallelEraseLint {
    open spec fn title(&self) -> Seq<char> {
        "Laggy parallel events should be erased after running"@
    }

    open spec fn findings(&self, doc: Document) -> Seq<DiagnosticView> {
        page_findings(PageRule::LaggyParallel, doc)
    }

    open spec fn triggered(&self, doc: Document) -> bool {
        page_pattern_present(PageRule::LaggyParallel, doc)
    }

    fn name(&self) -> (r: &'static str) {
        "Laggy parallel events should be erased after running"
    }

    fn test(&self, map: &Document) -> (r: Vec<Diagnostic>) {
        scan_pages(PageRule::LaggyParallel, map)
    }
}

} // verus!
