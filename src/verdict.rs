//! A one-value summary of a rule run: clean, or a warning or an error with
//! its text.
use vstd::prelude::*;
use crate::document::Event;
use crate::text::{decimal, decimal_padded, push_decimal, push_str, string_of};

verus! {

/// The summary of what a rule found.
#[derive(Debug)]
pub enum Diagnostic {
    Normal,
    Warning(String),
    Error(String),
}

pub enum VerdictView {
    Normal,
    Warning(Seq<char>),
    Error(Seq<char>),
}

impl View for Diagnostic {
    type V = VerdictView;

    open spec fn view(&self) -> VerdictView {
        match self {
            Diagnostic::Normal => VerdictView::Normal,
            Diagnostic::Warning(x) => VerdictView::Warning(x@),
            Diagnostic::Error(x) => VerdictView::Error(x@),
        }
    }
}

/// One line of an error summary: an event, a 0-based page and a message.
pub open spec fn finding_line(event: Event, page: usize, message: Seq<char>) -> Seq<char> {
    "\n    EV"@ + decimal_padded(event.id as nat, 4) + " (X"@ + decimal_padded(event.x as nat, 3)
        + ", Y"@ + decimal_padded(event.y as nat, 3) + ") on page "@ + decimal(page as nat) + ": "@
        + message
}

/// The lines of the first `n` findings.
pub open spec fn finding_lines(findings: Seq<(&Event, usize, &str)>, n: int) -> Seq<char>
    decreases n,
{
    if n <= 0 {
        Seq::empty()
    } else {
        finding_lines(findings, n - 1) + finding_line(
            *findings[n - 1].0,
            findings[n - 1].1,
            findings[n - 1].2@,
        )
    }
}

impl Diagnostic {
    /// The same summary with an error lowered to a warning.
    pub fn to_warning(self) -> (r: Self)
        ensures
            r@ == match self@ {
                VerdictView::Normal => VerdictView::Normal,
                VerdictView::Warning(x) => VerdictView::Warning(x),
                VerdictView::Error(x) => VerdictView::Warning(x),
            },
    {
        match self {
            Diagnostic::Normal => Diagnostic::Normal,
            Diagnostic::Warning(x) => Diagnostic::Warning(x),
            Diagnostic::Error(x) => Diagnostic::Warning(x),
        }
    }

    /// Clean when there are no findings; otherwise an error listing each one
    /// on a line of its own.
    pub fn from_findings(value: &[(&Event, usize, &str)]) -> (r: Self)
        ensures
            value@.len() == 0 ==> r@ == VerdictView::Normal,
            value@.len() > 0 ==> r@ == VerdictView::Error(finding_lines(value@, value@.len() as int)),
    {
        if value.len() == 0 {
            return Diagnostic::Normal;
        }
        let mut text: Vec<char> = Vec::new();
        let mut k: usize = 0;
        while k < value.len()
            invariant
                k <= value@.len(),
                text@ == finding_lines(value@, k as int),
            decreases value@.len() - k,
        {
            let (event, page, message) = value[k];
            push_str(&mut text, "\n    EV");
            push_decimal(&mut text, event.id as u64, 4);
            push_str(&mut text, " (X");
            push_decimal(&mut text, event.x as u64, 3);
            push_str(&mut text, ", Y");
            push_decimal(&mut text, event.y as u64, 3);
            push_str(&mut text, ") on page ");
            push_decimal(&mut text, page as u64, 0);
            push_str(&mut text, ": ");
            push_str(&mut text, message);
            assert(text@ =~= finding_lines(value@, k + 1));
            k += 1;
        }
        Diagnostic::Error(string_of(&text))
    }
}

} // verus!
