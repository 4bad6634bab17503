use vstd::prelude::*;
use crate::diagnostic::{Diagnostic, DiagnosticView};
use crate::document::Document;
use crate::lints::Lint;
use crate::pages::{page_findings, page_pattern_present, scan_pages, PageRule};

verus! {

/// Flags, as errors, every page that changes the weather without V0042 or V0042 without the weather. Each page is judged on its own.
pub struct WeatherLint;

impl Lint for WeatherLint {
    open spec fn title(&self) -> Seq<char> {
        "Parity between weather and V0042"@
    }

    open spec fn findings(&self, doc: Document) -> Seq<DiagnosticView> {
        page_findings(PageRule::WeatherParity, doc)
    }

    open spec fn triggered(&self, doc: Document) -> bool {
        page_pattern_present(PageRule::WeatherParity, doc)
    }

    fn name(&self) -> (r: &'static str) {
        "Parity between weather and V0042"
    }

    fn test(&self, map: &Document) -> (r: Vec<Diagnostic>) {
        scan_pages(PageRule::WeatherParity, map)
    }
}

} // verus!
