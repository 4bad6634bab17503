//! Running the whole registry on one document: suppression of rules by
//! position, and the severity floor applied to what they report.
use vstd::prelude::*;
use crate::diagnostic::{
    all_resolve, diagnostic_views, lemma_views_push, Diagnostic, DiagnosticLevel, DiagnosticView,
};
use crate::document::Document;
use crate::lints::{lint_findings, lint_name, lint_title, run_lint, LINT_COUNT};

verus! {

/// The severity floor of a report.
#[derive(Clone, Copy, Debug, PartialEq, Eq, Structural)]
pub enum LogLevel {
    /// Every rule that ran, clean ones included.
    All,
    /// Only rules that reported something.
    Warn,
    /// Only errors, and only rules that reported one.
    Error,
}

/// What one rule contributed to a report.
#[derive(Debug)]
pub struct ReportEntry {
    /// The rule's 1-based position in the registry.
    pub index: usize,
    pub name: &'static str,
    /// Empty for a clean rule.
    pub diagnostics: Vec<Diagnostic>,
}

pub struct EntryView {
    pub index: usize,
    pub name: Seq<char>,
    pub diagnostics: Seq<DiagnosticView>,
}

impl View for ReportEntry {
    type V = EntryView;

    open spec fn view(&self) -> EntryView {
        EntryView {
            index: self.index,
            name: self.name@,
            diagnostics: diagnostic_views(self.diagnostics@),
        }
    }
}

pub open spec fn entry_views(s: Seq<ReportEntry>) -> Seq<EntryView> {
    s.map_values(|e: ReportEntry| e@)
}

/// The errors of `ds`, in order.
pub open spec fn errors_only(ds: Seq<DiagnosticView>) -> Seq<DiagnosticView>
    decreases ds.len(),
{
    if ds.len() == 0 {
        ds
    } else {
        let rest = errors_only(ds.drop_last());
        if ds.last().level == DiagnosticLevel::Error {
            rest.push(ds.last())
        } else {
            rest
        }
    }
}

/// The entry that the rule at 0-based position `i` contributes under `level`, if any.
pub open spec fn entry_for(doc: Document, level: LogLevel, i: int) -> Option<EntryView> {
    let ds = lint_findings(i, doc);
    let entry = |kept: Seq<DiagnosticView>|
        EntryView { index: (i + 1) as usize, name: lint_title(i), diagnostics: kept };
    match level {
        LogLevel::All => Some(entry(ds)),
        LogLevel::Warn => if ds.len() == 0 {
            None
        } else {
            Some(entry(ds))
        },
        LogLevel::Error => if errors_only(ds).len() == 0 {
            None
        } else {
            Some(entry(errors_only(ds)))
        },
    }
}

/// The report over the first `n` rules of the registry.
pub open spec fn report_upto(doc: Document, level: LogLevel, ignored: Seq<usize>, n: int) -> Seq<
    EntryView,
>
    decreases n,
{
    if n <= 0 {
        Seq::empty()
    } else {
        let before = report_upto(doc, level, ignored, n - 1);
        if ignored.contains(n as usize) {
            before
        } else {
            match entry_for(doc, level, n - 1) {
                Some(e) => before.push(e),
                None => before,
            }
        }
    }
}

/// The report of `doc`: rules whose 1-based position is in `ignored` do not
/// run; the others contribute what `level` keeps, in registry order.
pub open spec fn report(doc: Document, level: LogLevel, ignored: Seq<usize>) -> Seq<EntryView> {
    report_upto(doc, level, ignored, LINT_COUNT as int)
}

/// The entries of `entries` whose rule position is not in `ignored`, in order.
pub open spec fn without_indices(entries: Seq<EntryView>, ignored: Seq<usize>) -> Seq<EntryView>
    decreases entries.len(),
{
    if entries.len() == 0 {
        entries
    } else {
        let rest = without_indices(entries.drop_last(), ignored);
        if ignored.contains(entries.last().index) {
            rest
        } else {
            rest.push(entries.last())
        }
    }
}

proof fn lemma_without_push(entries: Seq<EntryView>, e: EntryView, ignored: Seq<usize>)
    ensures
        without_indices(entries.push(e), ignored) == if ignored.contains(e.index) {
            without_indices(entries, ignored)
        } else {
            without_indices(entries, ignored).push(e)
        },
{
    assert(entries.push(e).drop_last() =~= entries);
}

proof fn lemma_suppression_upto(doc: Document, level: LogLevel, ignored: Seq<usize>, n: int)
    requires
        0 <= n <= LINT_COUNT,
    ensures
        report_upto(doc, level, ignored, n) == without_indices(
            report_upto(doc, level, Seq::empty(), n),
            ignored,
        ),
    decreases n,
{
    if n > 0 {
        lemma_suppression_upto(doc, level, ignored, n - 1);
        let none: Seq<usize> = Seq::empty();
        assert(!none.contains(n as usize));
        match entry_for(doc, level, n - 1) {
            Some(e) => {
                lemma_without_push(report_upto(doc, level, none, n - 1), e, ignored);
            },
            None => {},
        }
    }
}

/// Suppressing the rules at positions `ignored` gives the unsuppressed report
/// under the same floor, minus exactly the entries of those rules.
pub proof fn lemma_suppression(doc: Document, level: LogLevel, ignored: Seq<usize>)
    ensures
        report(doc, level, ignored) == without_indices(report(doc, level, Seq::empty()), ignored),
{
    lemma_suppression_upto(doc, level, ignored, LINT_COUNT as int);
}

proof fn lemma_errors_resolve(doc: Document, ds: Seq<DiagnosticView>)
    requires
        all_resolve(doc, ds),
    ensures
        all_resolve(doc, errors_only(ds)),
    decreases ds.len(),
{
    if ds.len() > 0 {
        let rest = ds.drop_last();
        assert forall|i: int| 0 <= i < rest.len() implies #[trigger] crate::diagnostic::resolves(doc, rest[i]) by {
            assert(rest[i] == ds[i]);
        }
        lemma_errors_resolve(doc, rest);
        assert(crate::diagnostic::resolves(doc, ds[ds.len() - 1]));
    }
}

/// The errors of `ds`, in order.
pub fn keep_errors(ds: Vec<Diagnostic>) -> (r: Vec<Diagnostic>)
    ensures
        diagnostic_views(r@) == errors_only(diagnostic_views(ds@)),
{
    let ghost all = ds@;
    let mut rest = ds;
    let mut out: Vec<Diagnostic> = Vec::new();
    let mut k: usize = 0;
    let n = rest.len();
    while k < n
        invariant
            n == all.len(),
            k <= n,
            rest@ == all.subrange(k as int, n as int),
            diagnostic_views(out@) == errors_only(diagnostic_views(all.subrange(0, k as int))),
        decreases n - k,
    {
        let d = rest.remove(0);
        assert(d == all[k as int]);
        proof {
            let prefix = diagnostic_views(all.subrange(0, k + 1));
            assert(prefix.drop_last() =~= diagnostic_views(all.subrange(0, k as int)));
            assert(prefix.last() == d@);
        }
        if d.level == DiagnosticLevel::Error {
            proof {
                lemma_views_push(out@, d);
            }
            out.push(d);
        }
        assert(rest@ =~= all.subrange(k + 1, n as int));
        k += 1;
    }
    assert(all.subrange(0, n as int) =~= all);
    out
}

fn is_ignored(ignored: &[usize], index: usize) -> (r: bool)
    ensures
        r == ignored@.contains(index),
{
    let mut j: usize = 0;
    while j < ignored.len()
        invariant
            j <= ignored@.len(),
            forall|i: int| 0 <= i < j ==> ignored@[i] != index,
        decreases ignored@.len() - j,
    {
        if ignored[j] == index {
            return true;
        }
        j += 1;
    }
    false
}

/// Runs every rule of the registry whose 1-based position is not in
/// `ignored` on `map`, and keeps what `level` lets through.
pub fn analyze(map: &Document, level: &LogLevel, ignored: &[usize]) -> (r: Vec<ReportEntry>)
    requires
        map.wf(),
    ensures
        entry_views(r@) == report(*map, *level, ignored@),
        forall|k: int| 0 <= k < r@.len() ==> all_resolve(*map, #[trigger] r@[k]@.diagnostics),
{
    let mut out: Vec<ReportEntry> = Vec::new();
    let mut i: usize = 0;
    while i < LINT_COUNT
        invariant
            map.wf(),
            i <= LINT_COUNT,
            entry_views(out@) == report_upto(*map, *level, ignored@, i as int),
            forall|k: int| 0 <= k < out@.len() ==> all_resolve(*map, #[trigger] out@[k]@.diagnostics),
        decreases LINT_COUNT - i,
    {
        if !is_ignored(ignored, i + 1) {
            let ds = run_lint(i, map);
            let name = lint_name(i);
            let kept = match level {
                LogLevel::All => Some(ds),
                LogLevel::Warn => if ds.len() == 0 {
                    None
                } else {
                    Some(ds)
                },
                LogLevel::Error => {
                    proof {
                        lemma_errors_resolve(*map, diagnostic_views(ds@));
                    }
                    let errors = keep_errors(ds);
                    if errors.len() == 0 {
                        None
                    } else {
                        Some(errors)
                    }
                },
            };
            match kept {
                Some(diagnostics) => {
                    let entry = ReportEntry { index: i + 1, name, diagnostics };
                    assert(entry_for(*map, *level, i as int) == Some(entry@));
                    assert(entry_views(out@.push(entry)) =~= entry_views(out@).push(entry@));
                    out.push(entry);
                },
                None => {
                    assert(entry_for(*map, *level, i as int) is None);
                },
            }
        }
        i += 1;
    }
    out
}

} // verus!
