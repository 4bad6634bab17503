use vstd::prelude::*;
use crate::diagnostic::{
    all_resolve, diagnostic_views, lemma_views_push, located_at, resolves, Diagnostic,
    DiagnosticEvent, DiagnosticLevel, DiagnosticView,
};
use crate::document::{Command, Document, Event, Instruction};
use crate::lints::Lint;
use crate::text::{
    bytes_equal, decimal, decimal_padded, encode_shift_jis, has_prefix, push_decimal, push_str,
    shift_jis_encoded, starts_with, string_of,
};

verus! {

/// How many helpers the anchor event must reference.
pub const HELPER_COUNT: usize = 5;

/// The name of the anchor event, before encoding.
pub open spec fn anchor_text() -> Seq<char> {
    "\u{30c6}\u{30a3}\u{30c3}\u{30b7}\u{30e5}++++"@
}

/// The prefixes a helper's name may start with, before encoding: the usual
/// one (which also covers a variant spelling of the last kana) and a Latin one.
pub open spec fn helper_texts() -> Seq<Seq<char>> {
    seq!["\u{30c6}\u{30a3}\u{30c3}\u{30b7}"@, "tis"@]
}

/// The event id that command `c` refers to, if it calls or moves an event.
pub open spec fn command_reference(c: Command) -> Option<u32> {
    match c.instruction {
        Instruction::CallEvent { mode, index } => Some(index),
        Instruction::SetEventLocation { source } => Some(source),
        _ => None,
    }
}

/// Event references among the first `n` commands.
pub open spec fn references_in(cmds: Seq<Command>, n: int) -> Seq<u32>
    decreases n,
{
    if n <= 0 {
        Seq::empty()
    } else {
        references_in(cmds, n - 1) + match command_reference(cmds[n - 1]) {
            Some(id) => seq![id],
            None => Seq::empty(),
        }
    }
}

/// Event references in the first `n` pages of `ev`.
pub open spec fn references_in_pages(ev: Event, n: int) -> Seq<u32>
    decreases n,
{
    if n <= 0 {
        Seq::empty()
    } else {
        references_in_pages(ev, n - 1) + references_in(
            ev.pages@[n - 1].commands@,
            ev.pages@[n - 1].commands@.len() as int,
        )
    }
}

/// Every event reference of `ev`, in order.
pub open spec fn references(ev: Event) -> Seq<u32> {
    references_in_pages(ev, ev.pages@.len() as int)
}

/// Index of the first event at or after `i` named `name`.
pub open spec fn first_named(events: Seq<Event>, name: Seq<u8>, i: int) -> Option<int>
    decreases events.len() - i,
{
    if i < 0 || i >= events.len() {
        None
    } else if events[i].name@ == name {
        Some(i)
    } else {
        first_named(events, name, i + 1)
    }
}

/// Index of the first event at or after `i` with id `id`.
pub open spec fn first_with_id(events: Seq<Event>, id: u32, i: int) -> Option<int>
    decreases events.len() - i,
{
    if i < 0 || i >= events.len() {
        None
    } else if events[i].id == id {
        Some(i)
    } else {
        first_with_id(events, id, i + 1)
    }
}

/// `name` starts with one of `prefixes`.
pub open spec fn is_helper_name(name: Seq<u8>, prefixes: Seq<Seq<u8>>) -> bool {
    exists|j: int| 0 <= j < prefixes.len() && starts_with(name, #[trigger] prefixes[j])
}

pub open spec fn missing_message(k: int, id: u32) -> Seq<char> {
    "Tissue "@ + decimal((k + 1) as nat) + " points to non-existent event EV"@ + decimal_padded(
        id as nat,
        4,
    )
}

pub open spec fn misnamed_message(k: int) -> Seq<char> {
    "incorrect event pointed to by tissue "@ + decimal((k + 1) as nat) + "."@
}

pub open spec fn count_message(n: nat) -> Seq<char> {
    "Expected 5 tissues but found "@ + decimal(n) + ". This is likely a bug with this tool."@
}

/// What is reported of reference `k` (0-based), to event `id`, of the anchor.
pub open spec fn helper_verdict(
    doc: Document,
    anchor: Event,
    prefixes: Seq<Seq<u8>>,
    k: int,
    id: u32,
) -> Seq<DiagnosticView> {
    match first_with_id(doc.events@, id, 0) {
        None => seq![
            DiagnosticView {
                level: DiagnosticLevel::Error,
                event: Some(DiagnosticEvent::of(anchor)),
                message: Some(missing_message(k, id)),
            },
        ],
        Some(i) => if is_helper_name(doc.events@[i].name@, prefixes) {
            Seq::empty()
        } else {
            seq![
                DiagnosticView {
                    level: DiagnosticLevel::Error,
                    event: Some(DiagnosticEvent::of(doc.events@[i])),
                    message: Some(misnamed_message(k)),
                },
            ]
        },
    }
}

/// What is reported of the first `n` references.
pub open spec fn helper_findings(
    doc: Document,
    anchor: Event,
    prefixes: Seq<Seq<u8>>,
    refs: Seq<u32>,
    n: int,
) -> Seq<DiagnosticView>
    decreases n,
{
    if n <= 0 {
        Seq::empty()
    } else {
        helper_findings(doc, anchor, prefixes, refs, n - 1) + helper_verdict(
            doc,
            anchor,
            prefixes,
            n - 1,
            refs[n - 1],
        )
    }
}

/// What the anchor check reports of `doc`, for an anchor named `anchor_name`
/// and helpers whose names start with one of `prefixes`.
pub open spec fn tissue_findings(doc: Document, anchor_name: Seq<u8>, prefixes: Seq<Seq<u8>>) -> Seq<
    DiagnosticView,
> {
    match first_named(doc.events@, anchor_name, 0) {
        None => seq![
            DiagnosticView {
                level: DiagnosticLevel::Warning,
                event: None,
                message: Some("Does not have tissue events"@),
            },
        ],
        Some(a) => {
            let refs = references(doc.events@[a]);
            if refs.len() != HELPER_COUNT {
                seq![
                    DiagnosticView {
                        level: DiagnosticLevel::Error,
                        event: Some(DiagnosticEvent::of(doc.events@[a])),
                        message: Some(count_message(refs.len())),
                    },
                ]
            } else {
                helper_findings(doc, doc.events@[a], prefixes, refs, HELPER_COUNT as int)
            }
        },
    }
}

/// The anchor exists, references exactly as many helpers as it should, and
/// each reference resolves to an event with a helper's name.
pub open spec fn tissues_sound(doc: Document, anchor_name: Seq<u8>, prefixes: Seq<Seq<u8>>) -> bool {
    match first_named(doc.events@, anchor_name, 0) {
        None => false,
        Some(a) => {
            let refs = references(doc.events@[a]);
            &&& refs.len() == HELPER_COUNT
            &&& forall|k: int|
                0 <= k < refs.len() ==> match #[trigger] first_with_id(doc.events@, refs[k], 0) {
                    None => false,
                    Some(i) => is_helper_name(doc.events@[i].name@, prefixes),
                }
        },
    }
}

pub open spec fn byte_views(v: Seq<Vec<u8>>) -> Seq<Seq<u8>> {
    v.map_values(|b: Vec<u8>| b@)
}

fn find_named(events: &Vec<Event>, name: &Vec<u8>) -> (r: Option<usize>)
    ensures
        match r {
            Some(i) => first_named(events@, name@, 0) == Some(i as int),
            None => first_named(events@, name@, 0) is None,
        },
{
    let mut i: usize = 0;
    while i < events.len()
        invariant
            i <= events@.len(),
            first_named(events@, name@, 0) == first_named(events@, name@, i as int),
        decreases events@.len() - i,
    {
        if bytes_equal(&events[i].name, name) {
            return Some(i);
        }
        i += 1;
    }
    None
}

fn find_id(events: &Vec<Event>, id: u32) -> (r: Option<usize>)
    ensures
        match r {
            Some(i) => first_with_id(events@, id, 0) == Some(i as int) && i < events@.len(),
            None => first_with_id(events@, id, 0) is None,
        },
{
    let mut i: usize = 0;
    while i < events.len()
        invariant
            i <= events@.len(),
            first_with_id(events@, id, 0) == first_with_id(events@, id, i as int),
        decreases events@.len() - i,
    {
        if events[i].id == id {
            return Some(i);
        }
        i += 1;
    }
    None
}

fn collect_references(ev: &Event) -> (r: Vec<u32>)
    ensures
        r@ == references(*ev),
{
    let mut out: Vec<u32> = Vec::new();
    let mut p: usize = 0;
    while p < ev.pages.len()
        invariant
            p <= ev.pages@.len(),
            out@ == references_in_pages(*ev, p as int),
        decreases ev.pages@.len() - p,
    {
        let page = &ev.pages[p];
        let mut c: usize = 0;
        while c < page.commands.len()
            invariant
                p < ev.pages@.len(),
                *page == ev.pages@[p as int],
                c <= page.commands@.len(),
                out@ == references_in_pages(*ev, p as int) + references_in(page.commands@, c as int),
            decreases page.commands@.len() - c,
        {
            match page.commands[c].instruction {
                Instruction::CallEvent { mode, index } => {
                    out.push(index);
                },
                Instruction::SetEventLocation { source } => {
                    out.push(source);
                },
                _ => {},
            }
            assert(out@ =~= references_in_pages(*ev, p as int) + references_in(page.commands@, c + 1));
            c += 1;
        }
        assert(out@ =~= references_in_pages(*ev, p + 1));
        p += 1;
    }
    out
}

fn has_helper_name(name: &Vec<u8>, prefixes: &Vec<Vec<u8>>) -> (r: bool)
    ensures
        r == is_helper_name(name@, byte_views(prefixes@)),
{
    let mut j: usize = 0;
    while j < prefixes.len()
        invariant
            j <= prefixes@.len(),
            forall|i: int| 0 <= i < j ==> !starts_with(name@, #[trigger] byte_views(prefixes@)[i]),
        decreases prefixes@.len() - j,
    {
        if has_prefix(name, &prefixes[j]) {
            assert(starts_with(name@, byte_views(prefixes@)[j as int]));
            return true;
        }
        j += 1;
    }
    false
}

/// Checks the anchor event named `anchor_name` and the helpers it
/// references, whose names must start with one of `prefixes`.
pub fn check_tissues(doc: &Document, anchor_name: &Vec<u8>, prefixes: &Vec<Vec<u8>>) -> (r: Vec<
    Diagnostic,
>)
    requires
        doc.wf(),
    ensures
        diagnostic_views(r@) == tissue_findings(*doc, anchor_name@, byte_views(prefixes@)),
        all_resolve(*doc, diagnostic_views(r@)),
        tissues_sound(*doc, anchor_name@, byte_views(prefixes@)) ==> r@.len() == 0,
{
    let ghost sigs = byte_views(prefixes@);
    let mut out: Vec<Diagnostic> = Vec::new();
    let a = match find_named(&doc.events, anchor_name) {
        None => {
            let d = Diagnostic {
                level: DiagnosticLevel::Warning,
                event: None,
                message: Some(String::from_str("Does not have tissue events")),
            };
            proof {
                lemma_views_push(out@, d);
            }
            out.push(d);
            assert(diagnostic_views(out@) =~= tissue_findings(*doc, anchor_name@, sigs));
            return out;
        },
        Some(a) => a,
    };
    proof {
        assert(first_named(doc.events@, anchor_name@, 0) == Some(a as int));
        lemma_first_named_in_range(doc.events@, anchor_name@, 0);
    }
    let anchor = &doc.events[a];
    assert(doc.events@[a as int].wf());
    let refs = collect_references(anchor);
    if refs.len() != HELPER_COUNT {
        let mut text: Vec<char> = Vec::new();
        push_str(&mut text, "Expected 5 tissues but found ");
        push_decimal(&mut text, refs.len() as u64, 0);
        push_str(&mut text, ". This is likely a bug with this tool.");
        assert(text@ =~= count_message(refs@.len()));
        let d = Diagnostic {
            level: DiagnosticLevel::Error,
            event: Some(DiagnosticEvent::from_event(anchor)),
            message: Some(string_of(&text)),
        };
        proof {
            lemma_views_push(out@, d);
            assert(located_at(*doc, a as int, DiagnosticEvent::of(*anchor)));
            assert(resolves(*doc, d@));
        }
        out.push(d);
        assert(diagnostic_views(out@) =~= tissue_findings(*doc, anchor_name@, sigs));
        return out;
    }
    let mut k: usize = 0;
    while k < HELPER_COUNT
        invariant
            doc.wf(),
            a < doc.events@.len(),
            *anchor == doc.events@[a as int],
            anchor.id > 0,
            sigs == byte_views(prefixes@),
            refs@ == references(*anchor),
            refs@.len() == HELPER_COUNT,
            k <= HELPER_COUNT,
            diagnostic_views(out@) == helper_findings(*doc, *anchor, sigs, refs@, k as int),
            all_resolve(*doc, diagnostic_views(out@)),
            out@.len() > 0 ==> exists|j: int|
                0 <= j < k && !match #[trigger] first_with_id(doc.events@, refs@[j], 0) {
                    None => false,
                    Some(i) => is_helper_name(doc.events@[i].name@, sigs),
                },
        decreases HELPER_COUNT - k,
    {
        let id = refs[k];
        let ghost before = out@;
        match find_id(&doc.events, id) {
            None => {
                let mut text: Vec<char> = Vec::new();
                push_str(&mut text, "Tissue ");
                push_decimal(&mut text, k as u64 + 1, 0);
                push_str(&mut text, " points to non-existent event EV");
                push_decimal(&mut text, id as u64, 4);
                assert(text@ =~= missing_message(k as int, id));
                let d = Diagnostic {
                    level: DiagnosticLevel::Error,
                    event: Some(DiagnosticEvent::from_event(anchor)),
                    message: Some(string_of(&text)),
                };
                proof {
                    lemma_views_push(out@, d);
                    assert(located_at(*doc, a as int, DiagnosticEvent::of(*anchor)));
                    assert(resolves(*doc, d@));
                }
                out.push(d);
            },
            Some(i) => {
                let helper = &doc.events[i];
                assert(doc.events@[i as int].wf());
                if !has_helper_name(&helper.name, prefixes) {
                    let mut text: Vec<char> = Vec::new();
                    push_str(&mut text, "incorrect event pointed to by tissue ");
                    push_decimal(&mut text, k as u64 + 1, 0);
                    push_str(&mut text, ".");
                    assert(text@ =~= misnamed_message(k as int));
                    let d = Diagnostic {
                        level: DiagnosticLevel::Error,
                        event: Some(DiagnosticEvent::from_event(helper)),
                        message: Some(string_of(&text)),
                    };
                    proof {
                        lemma_views_push(out@, d);
                        assert(located_at(*doc, i as int, DiagnosticEvent::of(*helper)));
                        assert(resolves(*doc, d@));
                    }
                    out.push(d);
                }
            },
        }
        assert(diagnostic_views(out@) =~= helper_findings(*doc, *anchor, sigs, refs@, k + 1));
        proof {
            if out@.len() > before.len() {
                assert(!match first_with_id(doc.events@, refs@[k as int], 0) {
                    None => false,
                    Some(i) => is_helper_name(doc.events@[i].name@, sigs),
                });
            }
        }
        k += 1;
    }
    out
}

proof fn lemma_first_named_in_range(events: Seq<Event>, name: Seq<u8>, i: int)
    requires
        0 <= i,
    ensures
        first_named(events, name, i) matches Some(j) ==> i <= j < events.len() && events[j].name@
            == name,
    decreases events.len() - i,
{
    if i < events.len() && events[i].name@ != name {
        lemma_first_named_in_range(events, name, i + 1);
    }
}

/// Checks that the tissue anchor event references exactly five helper
/// events, each of which exists and carries a helper's name. A map without
/// the anchor gets a warning.
pub struct TissueLint;

impl TissueLint {
    pub open spec fn anchor_name() -> Seq<u8> {
        shift_jis_encoded(anchor_text())
    }

    pub open spec fn helper_prefixes() -> Seq<Seq<u8>> {
        seq![shift_jis_encoded(helper_texts()[0]), shift_jis_encoded(helper_texts()[1])]
    }
}

impl Lint for TissueLint {
    open spec fn title(&self) -> Seq<char> {
        "Tissue event validity"@
    }

    open spec fn findings(&self, doc: Document) -> Seq<DiagnosticView> {
        tissue_findings(doc, TissueLint::anchor_name(), TissueLint::helper_prefixes())
    }

    /// The anchor is missing, or one of its references is wrong.
    open spec fn triggered(&self, doc: Document) -> bool {
        !tissues_sound(doc, TissueLint::anchor_name(), TissueLint::helper_prefixes())
    }

    fn name(&self) -> (r: &'static str) {
        "Tissue event validity"
    }

    fn test(&self, map: &Document) -> (r: Vec<Diagnostic>) {
        proof {
            reveal_strlit("\u{30c6}\u{30a3}\u{30c3}\u{30b7}\u{30e5}++++");
            reveal_strlit("\u{30c6}\u{30a3}\u{30c3}\u{30b7}");
            reveal_strlit("tis");
        }
        let anchor = encode_shift_jis("\u{30c6}\u{30a3}\u{30c3}\u{30b7}\u{30e5}++++");
        let mut prefixes: Vec<Vec<u8>> = Vec::new();
        prefixes.push(encode_shift_jis("\u{30c6}\u{30a3}\u{30c3}\u{30b7}"));
        prefixes.push(encode_shift_jis("tis"));
        assert(byte_views(prefixes@) =~= TissueLint::helper_prefixes());
        check_tissues(map, &anchor, &prefixes)
    }
}

} // verus!
