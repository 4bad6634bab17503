//! What a rule reports: a severity, an optional place in the document, and
//! an optional message.
use vstd::prelude::*;
use crate::document::{Document, Event};
use crate::text::{chars_of, decimal_padded, push_decimal, push_str, string_of};

verus! {

/// Severity of a finding.
#[derive(Clone, Copy, Debug, PartialEq, Eq, Structural)]
pub enum DiagnosticLevel {
    /// A style issue or a likely oversight.
    Warning,
    /// A confirmed policy or consistency violation.
    Error,
}

/// A page of an event (1-based), and optionally one of its commands (1-based).
#[derive(Clone, Copy, Debug, PartialEq, Eq, Structural)]
pub struct DiagnosticPage {
    pub id: u32,
    pub command: Option<u32>,
}

/// An event, by id and position, and optionally a page of it.
#[derive(Clone, Copy, Debug, PartialEq, Eq, Structural)]
pub struct DiagnosticEvent {
    pub id: u32,
    pub x: u32,
    pub y: u32,
    pub page: Option<DiagnosticPage>,
}

/// One finding of a rule.
#[derive(Debug)]
pub struct Diagnostic {
    pub level: DiagnosticLevel,
    /// Where the finding is; `None` for one about the document as a whole.
    pub event: Option<DiagnosticEvent>,
    pub message: Option<String>,
}

/// The value of a [`Diagnostic`], with its message as characters.
pub struct DiagnosticView {
    pub level: DiagnosticLevel,
    pub event: Option<DiagnosticEvent>,
    pub message: Option<Seq<char>>,
}

impl View for Diagnostic {
    type V = DiagnosticView;

    open spec fn view(&self) -> DiagnosticView {
        DiagnosticView {
            level: self.level,
            event: self.event,
            message: match self.message {
                Some(m) => Some(m@),
                None => None,
            },
        }
    }
}

pub open spec fn diagnostic_views(s: Seq<Diagnostic>) -> Seq<DiagnosticView> {
    s.map_values(|d: Diagnostic| d@)
}

pub proof fn lemma_views_push(s: Seq<Diagnostic>, d: Diagnostic)
    ensures
        diagnostic_views(s.push(d)) == diagnostic_views(s).push(d@),
{
    assert(diagnostic_views(s.push(d)) =~= diagnostic_views(s).push(d@));
}

impl DiagnosticPage {
    /// The page at 0-based `page_index`, with no command.
    pub fn new_from_index(page_index: usize) -> (r: Self)
        requires
            page_index < u32::MAX,
        ensures
            r.id == page_index + 1,
            r.command is None,
    {
        DiagnosticPage { id: page_index as u32 + 1, command: None }
    }

    /// The command at 0-based `command_index` of the page at 0-based `page_index`.
    pub fn new_from_indexes(page_index: usize, command_index: usize) -> (r: Self)
        requires
            page_index < u32::MAX,
            command_index < u32::MAX,
        ensures
            r.id == page_index + 1,
            r.command == Some((command_index + 1) as u32),
    {
        DiagnosticPage { id: page_index as u32 + 1, command: Some(command_index as u32 + 1) }
    }
}

impl DiagnosticEvent {
    /// The location of a whole event.
    pub open spec fn of(event: Event) -> DiagnosticEvent {
        DiagnosticEvent { id: event.id, x: event.x, y: event.y, page: None }
    }

    /// The location of `event`, with no page.
    pub fn from_event(event: &Event) -> (r: Self)
        requires
            event.id > 0,
        ensures
            r == Self::of(*event),
    {
        DiagnosticEvent { id: event.id, x: event.x, y: event.y, page: None }
    }

    /// The same event, narrowed to `page`.
    pub fn with_page(self, page: DiagnosticPage) -> (r: Self)
        ensures
            r == (DiagnosticEvent { page: Some(page), ..self }),
    {
        DiagnosticEvent { page: Some(page), ..self }
    }
}

/// `loc` names the event at index `e` of `doc`, and the page and command it
/// names, if any, exist there.
pub open spec fn located_at(doc: Document, e: int, loc: DiagnosticEvent) -> bool {
    &&& 0 <= e < doc.events@.len()
    &&& doc.events@[e].id == loc.id
    &&& doc.events@[e].x == loc.x
    &&& doc.events@[e].y == loc.y
    &&& match loc.page {
        None => true,
        Some(p) => {
            &&& 1 <= p.id <= doc.events@[e].pages@.len()
            &&& match p.command {
                None => true,
                Some(c) => 1 <= c <= doc.events@[e].pages@[p.id - 1].commands@.len(),
            }
        },
    }
}

/// The location of `d`, if it has one, resolves in `doc`.
pub open spec fn resolves(doc: Document, d: DiagnosticView) -> bool {
    match d.event {
        None => true,
        Some(loc) => exists|e: int| #[trigger] located_at(doc, e, loc),
    }
}

/// Every location in `ds` resolves in `doc`.
pub open spec fn all_resolve(doc: Document, ds: Seq<DiagnosticView>) -> bool {
    forall|i: int| 0 <= i < ds.len() ==> #[trigger] resolves(doc, ds[i])
}

/// `EV<id:4> (X<x:3>, Y<y:3>)[ P<page:2>[ I<command:5>]]`.
pub open spec fn location_text(l: DiagnosticEvent) -> Seq<char> {
    "EV"@ + decimal_padded(l.id as nat, 4) + " (X"@ + decimal_padded(l.x as nat, 3) + ", Y"@
        + decimal_padded(l.y as nat, 3) + ")"@ + match l.page {
        None => Seq::empty(),
        Some(p) => " P"@ + decimal_padded(p.id as nat, 2) + match p.command {
            None => Seq::empty(),
            Some(c) => " I"@ + decimal_padded(c as nat, 5),
        },
    }
}

/// The one-line text of a finding.
pub open spec fn rendered(d: DiagnosticView) -> Seq<char> {
    match d.event {
        Some(l) => location_text(l) + match d.message {
            Some(m) => ": "@ + m,
            None => Seq::empty(),
        },
        None => match d.message {
            Some(m) => m,
            None => "<No information provided>"@,
        },
    }
}

impl Diagnostic {
    /// The one-line text of this finding.
    pub fn render(&self) -> (r: String)
        ensures
            r@ == rendered(self@),
    {
        let mut out: Vec<char> = Vec::new();
        match self.event {
            Some(l) => {
                push_str(&mut out, "EV");
                push_decimal(&mut out, l.id as u64, 4);
                push_str(&mut out, " (X");
                push_decimal(&mut out, l.x as u64, 3);
                push_str(&mut out, ", Y");
                push_decimal(&mut out, l.y as u64, 3);
                push_str(&mut out, ")");
                let ghost head = out@;
                match l.page {
                    Some(p) => {
                        push_str(&mut out, " P");
                        push_decimal(&mut out, p.id as u64, 2);
                        match p.command {
                            Some(c) => {
                                push_str(&mut out, " I");
                                push_decimal(&mut out, c as u64, 5);
                            },
                            None => {},
                        }
                    },
                    None => {},
                }
                assert(out@ =~= location_text(l));
                match &self.message {
                    Some(m) => {
                        push_str(&mut out, ": ");
                        push_str(&mut out, m.as_str());
                    },
                    None => {},
                }
                assert(out@ =~= rendered(self@));
            },
            None => {
                match &self.message {
                    Some(m) => {
                        out = chars_of(m.as_str());
                    },
                    None => {
                        out = chars_of("<No information provided>");
                    },
                }
            },
        }
        string_of(&out)
    }
}

} // verus!
