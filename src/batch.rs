//! Many documents at once: each is analyzed on its own, a document that
//! failed to load becomes a failure entry, and the results are reassembled
//! in ascending identifier order whatever order they were produced in.
use vstd::prelude::*;
use crate::document::Document;
use crate::report::{analyze, entry_views, report, EntryView, LogLevel, ReportEntry};

verus! {

/// What became of one document of a batch.
#[derive(Debug)]
pub enum MapOutcome {
    /// It could not be loaded; the text says why.
    Failed(String),
    /// Its report.
    Analyzed(Vec<ReportEntry>),
}

/// The outcome of the document with identifier `id`.
#[derive(Debug)]
pub struct MapResult {
    pub id: u32,
    pub outcome: MapOutcome,
}

pub enum OutcomeView {
    Failed(Seq<char>),
    Analyzed(Seq<EntryView>),
}

pub struct MapResultView {
    pub id: u32,
    pub outcome: OutcomeView,
}

impl View for MapResult {
    type V = MapResultView;

    open spec fn view(&self) -> MapResultView {
        MapResultView {
            id: self.id,
            outcome: match self.outcome {
                MapOutcome::Failed(m) => OutcomeView::Failed(m@),
                MapOutcome::Analyzed(entries) => OutcomeView::Analyzed(entry_views(entries@)),
            },
        }
    }
}

pub open spec fn result_views(s: Seq<MapResult>) -> Seq<MapResultView> {
    s.map_values(|r: MapResult| r@)
}

/// The result for document `id`, given what loading it gave.
pub open spec fn outcome_of(
    id: u32,
    loaded: Result<Document, String>,
    level: LogLevel,
    ignored: Seq<usize>,
) -> MapResultView {
    MapResultView {
        id,
        outcome: match loaded {
            Ok(doc) => OutcomeView::Analyzed(report(doc, level, ignored)),
            Err(m) => OutcomeView::Failed(m@),
        },
    }
}

/// The result of each input, in input order.
pub open spec fn batch_outcomes(
    inputs: Seq<(u32, Result<Document, String>)>,
    level: LogLevel,
    ignored: Seq<usize>,
) -> Seq<MapResultView> {
    Seq::new(inputs.len(), |i: int| outcome_of(inputs[i].0, inputs[i].1, level, ignored))
}

/// Every loaded document of `inputs` is well formed.
pub open spec fn loads_wf(inputs: Seq<(u32, Result<Document, String>)>) -> bool {
    forall|i: int| 0 <= i < inputs.len() ==> ((#[trigger] inputs[i]).1 matches Ok(doc) ==> doc.wf())
}

pub open spec fn input_ids_distinct(inputs: Seq<(u32, Result<Document, String>)>) -> bool {
    forall|i: int, j: int| 0 <= i < j < inputs.len() ==> inputs[i].0 != inputs[j].0
}

pub open spec fn ids_distinct(s: Seq<MapResultView>) -> bool {
    forall|i: int, j: int| 0 <= i < j < s.len() ==> s[i].id != s[j].id
}

/// Identifiers strictly ascend.
pub open spec fn strictly_sorted(s: Seq<MapResultView>) -> bool {
    forall|i: int, j: int| 0 <= i < j < s.len() ==> s[i].id < s[j].id
}

/// `a` and `b` hold the same results.
pub open spec fn same_results(a: Seq<MapResultView>, b: Seq<MapResultView>) -> bool {
    forall|x: MapResultView| a.contains(x) <==> b.contains(x)
}

/// `output` is `input` in ascending identifier order.
pub open spec fn assembled(input: Seq<MapResultView>, output: Seq<MapResultView>) -> bool {
    &&& strictly_sorted(output)
    &&& same_results(input, output)
    &&& output.len() == input.len()
}

/// Analyzes one document of a batch, or records why it could not be loaded.
pub fn analyze_loaded(
    id: u32,
    loaded: Result<Document, String>,
    level: &LogLevel,
    ignored: &[usize],
) -> (r: MapResult)
    requires
        loaded matches Ok(doc) ==> doc.wf(),
    ensures
        r@ == outcome_of(id, loaded, *level, ignored@),
{
    match loaded {
        Ok(doc) => MapResult { id, outcome: MapOutcome::Analyzed(analyze(&doc, level, ignored)) },
        Err(message) => MapResult { id, outcome: MapOutcome::Failed(message) },
    }
}

proof fn lemma_insert_contains(s: Seq<MapResultView>, j: int, x: MapResultView)
    requires
        0 <= j <= s.len(),
    ensures
        forall|y: MapResultView| s.insert(j, x).contains(y) <==> (s.contains(y) || y == x),
{
    let t = s.insert(j, x);
    assert forall|y: MapResultView| t.contains(y) <==> (s.contains(y) || y == x) by {
        if t.contains(y) {
            let k = choose|k: int| 0 <= k < t.len() && t[k] == y;
            if k < j {
                assert(s[k] == y);
            } else if k > j {
                assert(s[k - 1] == y);
            }
        }
        if s.contains(y) {
            let k = choose|k: int| 0 <= k < s.len() && s[k] == y;
            if k < j {
                assert(t[k] == y);
            } else {
                assert(t[k + 1] == y);
            }
        }
        if y == x {
            assert(t[j] == y);
        }
    }
}

proof fn lemma_subrange_extend(s: Seq<MapResultView>, m: int, y: MapResultView)
    requires
        0 < m <= s.len(),
    ensures
        s.subrange(m - 1, s.len() as int).contains(y) <==> (s.subrange(m, s.len() as int).contains(y)
            || y == s[m - 1]),
{
    let t = s.subrange(m - 1, s.len() as int);
    let u = s.subrange(m, s.len() as int);
    if t.contains(y) {
        let k = choose|k: int| 0 <= k < t.len() && t[k] == y;
        if k > 0 {
            assert(u[k - 1] == y);
        }
    }
    if u.contains(y) {
        let k = choose|k: int| 0 <= k < u.len() && u[k] == y;
        assert(t[k + 1] == y);
    }
    if y == s[m - 1] {
        assert(t[0] == y);
    }
}

/// Puts results in ascending identifier order.
pub fn assemble(results: Vec<MapResult>) -> (r: Vec<MapResult>)
    requires
        ids_distinct(result_views(results@)),
    ensures
        assembled(result_views(results@), result_views(r@)),
{
    let ghost input = result_views(results@);
    let ghost n = input.len() as int;
    let mut rest = results;
    let mut out: Vec<MapResult> = Vec::new();
    while rest.len() > 0
        invariant
            ids_distinct(input),
            n == input.len(),
            rest@.len() <= n,
            result_views(rest@) == input.subrange(0, rest@.len() as int),
            strictly_sorted(result_views(out@)),
            out@.len() + rest@.len() == n,
            forall|y: MapResultView|
                result_views(out@).contains(y) <==> input.subrange(rest@.len() as int, n).contains(y),
        decreases rest@.len(),
    {
        let ghost m = rest@.len() as int;
        let ghost before = result_views(out@);
        let ghost old_rest = rest@;
        let x = match rest.pop() {
            Some(x) => x,
            None => { return out; },
        };
        assert(x@ == input[m - 1]) by {
            assert(x == old_rest[m - 1]);
            assert(result_views(old_rest)[m - 1] == input.subrange(0, m)[m - 1]);
        }
        assert(result_views(rest@) =~= input.subrange(0, m - 1));
        proof {
            assert forall|i: int| 0 <= i < before.len() implies before[i].id != x.id by {
                assert(before.contains(before[i]));
                assert(input.subrange(m, n).contains(before[i]));
                let k = choose|k: int| 0 <= k < n - m && input.subrange(m, n)[k] == before[i];
                assert(input[m + k] == before[i]);
            }
        }
        let mut j: usize = 0;
        while j < out.len() && out[j].id < x.id
            invariant
                j <= out@.len(),
                result_views(out@) == before,
                forall|i: int| 0 <= i < j ==> before[i].id < x.id,
            decreases out@.len() - j,
        {
            j += 1;
        }
        proof {
            lemma_insert_contains(before, j as int, x@);
            assert(result_views(out@.insert(j as int, x)) =~= before.insert(j as int, x@));
        }
        out.insert(j, x);
        proof {
            let after = result_views(out@);
            assert(after == before.insert(j as int, x@));
            assert(rest@.len() == m - 1);
            assert forall|y: MapResultView|
                after.contains(y) <==> input.subrange(m - 1, n).contains(y) by {
                assert(after.contains(y) <==> (before.contains(y) || y == x@));
                lemma_subrange_extend(input, m, y);
                assert(input.subrange(m - 1, input.len() as int).contains(y) <==> (input.subrange(m, input.len() as int).contains(y)
                    || y == input[m - 1]));
            }
            assert forall|a: int, b: int| 0 <= a < b < after.len() implies after[a].id < after[b].id by {
                if b < j {
                } else if b == j {
                } else if a < j {
                    assert(before[b - 1].id >= x.id || j == before.len()) by {
                        if j < before.len() {
                            assert(before[j as int].id >= x.id);
                        }
                    }
                } else if a == j {
                    assert(before[j as int].id >= x.id);
                }
            }
        }
    }
    assert(input.subrange(0, n) =~= input);
    out
}

/// Analyzes every document of `inputs`, one after the other, and returns the
/// results in ascending identifier order.
pub fn run_batch(
    inputs: Vec<(u32, Result<Document, String>)>,
    level: &LogLevel,
    ignored: &[usize],
) -> (r: Vec<MapResult>)
    requires
        input_ids_distinct(inputs@),
        loads_wf(inputs@),
    ensures
        assembled(batch_outcomes(inputs@, *level, ignored@), result_views(r@)),
{
    let ghost all = inputs@;
    let mut rest = inputs;
    let mut done: Vec<MapResult> = Vec::new();
    let n = rest.len();
    let mut k: usize = 0;
    while k < n
        invariant
            n == all.len(),
            k <= n,
            rest@ == all.subrange(k as int, n as int),
            loads_wf(all),
            result_views(done@) == batch_outcomes(all, *level, ignored@).subrange(0, k as int),
        decreases n - k,
    {
        let (id, loaded) = rest.remove(0);
        assert(all[k as int] == (id, loaded));
        let r = analyze_loaded(id, loaded, level, ignored);
        assert(r@ == batch_outcomes(all, *level, ignored@)[k as int]);
        assert(result_views(done@.push(r)) =~= result_views(done@).push(r@));
        assert(result_views(done@.push(r)) =~= batch_outcomes(all, *level, ignored@).subrange(0, k + 1));
        done.push(r);
        assert(rest@ =~= all.subrange(k + 1, n as int));
        k += 1;
    }
    assert(result_views(done@) =~= batch_outcomes(all, *level, ignored@));
    assemble(done)
}

proof fn lemma_sorted_unique(ra: Seq<MapResultView>, rb: Seq<MapResultView>)
    requires
        strictly_sorted(ra),
        strictly_sorted(rb),
        same_results(ra, rb),
    ensures
        ra == rb,
    decreases ra.len() + rb.len(),
{
    if ra.len() == 0 || rb.len() == 0 {
        if rb.len() > 0 {
            assert(rb.contains(rb[0]));
        }
        if ra.len() > 0 {
            assert(ra.contains(ra[0]));
        }
        assert(ra =~= rb);
    } else {
        let la = ra.len() - 1;
        let lb = rb.len() - 1;
        let x = ra[la];
        let y = rb[lb];
        assert(ra.contains(x));
        assert(rb.contains(y));
        let i = choose|i: int| 0 <= i < rb.len() && rb[i] == x;
        let k = choose|k: int| 0 <= k < ra.len() && ra[k] == y;
        assert(x.id <= y.id) by {
            if i < lb {
                assert(rb[i].id < rb[lb].id);
            }
        }
        assert(y.id <= x.id) by {
            if k < la {
                assert(ra[k].id < ra[la].id);
            }
        }
        assert(k == la) by {
            if k < la {
                assert(ra[k].id < ra[la].id);
            }
        }
        let da = ra.drop_last();
        let db = rb.drop_last();
        assert forall|z: MapResultView| da.contains(z) <==> db.contains(z) by {
            if da.contains(z) {
                let p = choose|p: int| 0 <= p < da.len() && da[p] == z;
                assert(ra[p] == z && ra[p].id < x.id);
                assert(ra.contains(z));
                let q = choose|q: int| 0 <= q < rb.len() && rb[q] == z;
                assert(q != lb);
                assert(db[q] == z);
            }
            if db.contains(z) {
                let p = choose|p: int| 0 <= p < db.len() && db[p] == z;
                assert(rb[p] == z && rb[p].id < y.id);
                assert(rb.contains(z));
                let q = choose|q: int| 0 <= q < ra.len() && ra[q] == z;
                assert(q != la);
                assert(da[q] == z);
            }
        }
        lemma_sorted_unique(da, db);
        assert(ra =~= da.push(x));
        assert(rb =~= db.push(y));
    }
}

/// The assembled output depends only on which results there are, not on the
/// order they were produced in: a run with one worker and a run with many
/// emit the same sequence.
pub proof fn lemma_order_invariance(
    a: Seq<MapResultView>,
    b: Seq<MapResultView>,
    ra: Seq<MapResultView>,
    rb: Seq<MapResultView>,
)
    requires
        same_results(a, b),
        assembled(a, ra),
        assembled(b, rb),
    ensures
        ra == rb,
{
    lemma_sorted_unique(ra, rb);
}

/// Replacing what document `j` of a batch loaded with a load failure does
/// not change the result of any other document.
pub proof fn lemma_isolation(
    inputs: Seq<(u32, Result<Document, String>)>,
    j: int,
    failure: String,
    level: LogLevel,
    ignored: Seq<usize>,
    ra: Seq<MapResultView>,
    rb: Seq<MapResultView>,
)
    requires
        0 <= j < inputs.len(),
        assembled(batch_outcomes(inputs, level, ignored), ra),
        assembled(
            batch_outcomes(inputs.update(j, (inputs[j].0, Err(failure))), level, ignored),
            rb,
        ),
    ensures
        forall|x: MapResultView| x.id != inputs[j].0 ==> (ra.contains(x) <==> rb.contains(x)),
{
    let failed = inputs.update(j, (inputs[j].0, Err(failure)));
    let oa = batch_outcomes(inputs, level, ignored);
    let ob = batch_outcomes(failed, level, ignored);
    assert forall|x: MapResultView| x.id != inputs[j].0 implies (ra.contains(x) <==> rb.contains(x)) by {
        if oa.contains(x) {
            let i = choose|i: int| 0 <= i < oa.len() && oa[i] == x;
            assert(i != j);
            assert(ob[i] == x);
            assert(ob.contains(x));
        }
        if ob.contains(x) {
            let i = choose|i: int| 0 <= i < ob.len() && ob[i] == x;
            assert(i != j);
            assert(oa[i] == x);
            assert(oa.contains(x));
        }
    }
}

} // verus!
