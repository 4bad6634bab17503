use vstd::prelude::*;
use crate::diagnostic::{
    all_resolve, diagnostic_views, lemma_views_push, located_at, resolves, Diagnostic,
    DiagnosticEvent, DiagnosticLevel, DiagnosticView,
};
use crate::document::{Command, Document, Event, Page};
use crate::lints::Lint;
use crate::scan::is_comment;
use crate::text::{
    chars_equal, chars_of, contains, contains_seq, decode_shift_jis, shift_jis_decoded,
};

verus! {

/// The sprite sheet that holds the blue signs.
pub open spec fn blue_sign_sheet() -> Seq<char> {
    "system_kyouyu_gazou06"@
}

/// A page drawn as a blue sign: cell 1 or 2 of the sign sheet, by its decoded name.
pub open spec fn is_blue_sign_graphic_of(file: Seq<char>, index: u32) -> bool {
    file == blue_sign_sheet() && (index == 1 || index == 2)
}

/// Decoded comment text that explains a blue sign.
pub open spec fn is_sign_note_of(text: Seq<char>) -> bool {
    contains_seq(text, "eserved"@) || contains_seq(text, "\u{4e88}\u{7d04}"@) || contains_seq(
        text,
        "\u{63a5}\u{7d9a}"@,
    )
}

pub open spec fn is_blue_sign_page(page: Page) -> bool {
    is_blue_sign_graphic_of(shift_jis_decoded(page.graphic.file@), page.graphic.index)
}

pub open spec fn is_sign_note(c: Command) -> bool {
    is_comment(c.instruction) && is_sign_note_of(shift_jis_decoded(c.string@))
}

/// Some page of `ev` is drawn as a blue sign.
pub open spec fn is_blue_sign(ev: Event) -> bool {
    exists|p: int| 0 <= p < ev.pages@.len() && #[trigger] is_blue_sign_page(ev.pages@[p])
}

/// Some comment of `ev` explains the sign.
pub open spec fn has_sign_note(ev: Event) -> bool {
    exists|p: int, c: int|
        0 <= p < ev.pages@.len() && 0 <= c < ev.pages@[p].commands@.len() && #[trigger] is_sign_note(
            ev.pages@[p].commands@[c],
        )
}

pub open spec fn blue_sign_verdict(ev: Event) -> Seq<DiagnosticView> {
    if is_blue_sign(ev) && !has_sign_note(ev) {
        seq![
            DiagnosticView {
                level: DiagnosticLevel::Error,
                event: Some(DiagnosticEvent::of(ev)),
                message: None,
            },
        ]
    } else {
        Seq::empty()
    }
}

/// Findings over the first `n` events.
pub open spec fn blue_sign_findings(doc: Document, n: int) -> Seq<DiagnosticView>
    decreases n,
{
    if n <= 0 {
        Seq::empty()
    } else {
        blue_sign_findings(doc, n - 1) + blue_sign_verdict(doc.events@[n - 1])
    }
}

/// Whether a page with decoded graphic name `file` and cell `index` is a blue sign.
pub fn is_blue_sign_graphic(file: &Vec<char>, index: u32) -> (r: bool)
    ensures
        r == is_blue_sign_graphic_of(file@, index),
{
    let sheet = chars_of("system_kyouyu_gazou06");
    (index == 1 || index == 2) && chars_equal(file, &sheet)
}

/// Whether decoded comment text explains a blue sign.
pub fn is_sign_note_text(text: &Vec<char>) -> (r: bool)
    ensures
        r == is_sign_note_of(text@),
{
    let reserved = chars_of("eserved");
    let booked = chars_of("\u{4e88}\u{7d04}");
    let connected = chars_of("\u{63a5}\u{7d9a}");
    contains(text, &reserved) || contains(text, &booked) || contains(text, &connected)
}

fn find_blue_sign(ev: &Event) -> (r: bool)
    requires
        ev.wf(),
    ensures
        r == is_blue_sign(*ev),
{
    let mut p: usize = 0;
    while p < ev.pages.len()
        invariant
            ev.wf(),
            p <= ev.pages@.len(),
            forall|q: int| 0 <= q < p ==> !#[trigger] is_blue_sign_page(ev.pages@[q]),
        decreases ev.pages@.len() - p,
    {
        let page = &ev.pages[p];
        assert(ev.pages@[p as int].wf());
        let file = decode_shift_jis(page.graphic.file.as_slice());
        if is_blue_sign_graphic(&file, page.graphic.index) {
            assert(is_blue_sign_page(ev.pages@[p as int]));
            return true;
        }
        p += 1;
    }
    false
}

fn find_sign_note(ev: &Event) -> (r: bool)
    requires
        ev.wf(),
    ensures
        r == has_sign_note(*ev),
{
    let mut p: usize = 0;
    while p < ev.pages.len()
        invariant
            ev.wf(),
            p <= ev.pages@.len(),
            forall|q: int, c: int|
                0 <= q < p && 0 <= c < ev.pages@[q].commands@.len() ==> !#[trigger] is_sign_note(
                    ev.pages@[q].commands@[c],
                ),
        decreases ev.pages@.len() - p,
    {
        let page = &ev.pages[p];
        assert(ev.pages@[p as int].wf());
        let mut c: usize = 0;
        while c < page.commands.len()
            invariant
                ev.wf(),
                p < ev.pages@.len(),
                *page == ev.pages@[p as int],
                page.wf(),
                c <= page.commands@.len(),
                forall|q: int, k: int|
                    0 <= q < p && 0 <= k < ev.pages@[q].commands@.len() ==> !#[trigger] is_sign_note(
                        ev.pages@[q].commands@[k],
                    ),
                forall|k: int| 0 <= k < c ==> !#[trigger] is_sign_note(page.commands@[k]),
            decreases page.commands@.len() - c,
        {
            let cmd = &page.commands[c];
            match cmd.instruction {
                crate::document::Instruction::Comment
                | crate::document::Instruction::CommentNextLine => {
                    assert(page.commands@[c as int].wf());
                    let text = decode_shift_jis(cmd.string.as_slice());
                    if is_sign_note_text(&text) {
                        assert(is_sign_note(ev.pages@[p as int].commands@[c as int]));
                        return true;
                    }
                },
                _ => {},
            }
            c += 1;
        }
        p += 1;
    }
    false
}

/// Flags, as errors, every event drawn as a blue sign that no comment explains.
pub struct BlueSignLint;

impl Lint for BlueSignLint {
    open spec fn title(&self) -> Seq<char> {
        "Blue signs must have annotations"@
    }

    open spec fn findings(&self, doc: Document) -> Seq<DiagnosticView> {
        blue_sign_findings(doc, doc.events@.len() as int)
    }

    open spec fn triggered(&self, doc: Document) -> bool {
        exists|e: int| 0 <= e < doc.events@.len() && #[trigger] is_blue_sign(doc.events@[e])
    }

    fn name(&self) -> (r: &'static str) {
        "Blue signs must have annotations"
    }

    fn test(&self, map: &Document) -> (r: Vec<Diagnostic>) {
        let mut out: Vec<Diagnostic> = Vec::new();
        let mut e: usize = 0;
        while e < map.events.len()
            invariant
                map.wf(),
                e <= map.events@.len(),
                diagnostic_views(out@) == blue_sign_findings(*map, e as int),
                all_resolve(*map, diagnostic_views(out@)),
                !self.triggered(*map) ==> out@.len() == 0,
            decreases map.events@.len() - e,
        {
            let event = &map.events[e];
            assert(map.events@[e as int].wf());
            if find_blue_sign(event) && !find_sign_note(event) {
                let d = Diagnostic {
                    level: DiagnosticLevel::Error,
                    event: Some(DiagnosticEvent::from_event(event)),
                    message: None,
                };
                proof {
                    lemma_views_push(out@, d);
                    assert(located_at(*map, e as int, DiagnosticEvent::of(*event)));
                    assert(resolves(*map, d@));
                    assert(self.triggered(*map));
                }
                out.push(d);
            }
            assert(diagnostic_views(out@) =~= blue_sign_findings(*map, e + 1));
            e += 1;
        }
        out
    }
}

} // verus!
