//! Rules that run a small state machine over the commands of each page and
//! report, at the end of a page, at most one finding anchored to it.
use vstd::prelude::*;
use crate::diagnostic::{
    all_resolve, diagnostic_views, lemma_views_push, located_at, resolves, Diagnostic,
    DiagnosticEvent, DiagnosticLevel, DiagnosticPage, DiagnosticView,
};
use crate::document::{Command, Document, Instruction, Page, Trigger};
use crate::scan::assigns_variable;
use crate::text::{chars_of, contains, contains_seq, decode_shift_jis, shift_jis_decoded};

verus! {

/// The variable that tracks the current weather.
pub const WEATHER_VARIABLE: u32 = 42;

/// The common event that freezes the player's movement.
pub const FREEZE_EVENT: u32 = 8;

/// The common event that releases it.
pub const RELEASE_EVENT: u32 = 9;

/// The per-page rules.
#[derive(Clone, Copy, Debug, PartialEq, Eq, Structural)]
pub enum PageRule {
    /// A weather change and an assignment to the weather variable go together.
    WeatherParity,
    /// No transfer while the player is frozen, unless a comment excuses the page.
    TransferWhileFrozen,
    /// A parallel page with costly instructions erases its event.
    LaggyParallel,
}

/// Where a page stands on the weather parity.
#[derive(Clone, Copy, Debug, PartialEq, Eq, Structural)]
pub enum WeatherState {
    Normal,
    /// The variable changed; a weather change is owed.
    ExpectingWeather,
    /// The weather changed; a variable change is owed.
    ExpectingVariable,
    /// Both happened.
    Finished,
}

pub open spec fn weather_step(s: WeatherState, i: Instruction) -> WeatherState {
    if i is WeatherEffects {
        match s {
            WeatherState::Normal => WeatherState::ExpectingVariable,
            WeatherState::ExpectingWeather => WeatherState::Finished,
            _ => s,
        }
    } else if assigns_variable(i, WEATHER_VARIABLE) {
        match s {
            WeatherState::Normal => WeatherState::ExpectingWeather,
            WeatherState::ExpectingVariable => WeatherState::Finished,
            _ => s,
        }
    } else {
        s
    }
}

/// The weather state after the first `n` commands of a page.
pub open spec fn weather_after(cmds: Seq<Command>, n: int) -> WeatherState
    decreases n,
{
    if n <= 0 {
        WeatherState::Normal
    } else {
        weather_step(weather_after(cmds, n - 1), cmds[n - 1].instruction)
    }
}

impl WeatherState {
    /// The state after instruction `i`.
    pub fn step(self, i: Instruction) -> (r: WeatherState)
        ensures
            r == weather_step(self, i),
    {
        match i {
            Instruction::WeatherEffects => match self {
                WeatherState::Normal => WeatherState::ExpectingVariable,
                WeatherState::ExpectingWeather => WeatherState::Finished,
                _ => self,
            },
            Instruction::ControlVariables { mode, start, end } => {
                if (mode == 0 && start == WEATHER_VARIABLE) || (mode == 1 && start
                    <= WEATHER_VARIABLE && WEATHER_VARIABLE <= end) {
                    match self {
                        WeatherState::Normal => WeatherState::ExpectingWeather,
                        WeatherState::ExpectingVariable => WeatherState::Finished,
                        _ => self,
                    }
                } else {
                    self
                }
            },
            _ => self,
        }
    }
}

/// Where a page stands on transfers while the player is frozen.
#[derive(Clone, Copy, Debug, PartialEq, Eq, Structural)]
pub struct TransferState {
    /// The player is frozen.
    pub frozen: bool,
    /// A transfer happened while frozen.
    pub moved: bool,
    /// A comment other than the known explanation marks the page as excused.
    pub excluded: bool,
}

/// The explanation that a frozen transfer is released on the destination map.
pub open spec fn transfer_explanation() -> Seq<char> {
    "\u{79fb}\u{52d5}\u{5148}\u{30de}\u{30c3}\u{30d7}\u{3067}\u{76f4}\u{63a5}\u{300c}\u{ff72}\u{ff8d}\u{ff9e}\u{ff9d}\u{ff84}\u{4e2d}\u{52d5}\u{4f5c}\u{7981}\u{6b62}\u{89e3}\u{9664}\u{300d}\u{3057}\u{3066}\u{3044}\u{307e}\u{3059}\u{3002}"@
}

/// The state after instruction `i`; `explained` tells whether a comment's
/// decoded text holds the known explanation.
pub open spec fn transfer_update(s: TransferState, i: Instruction, explained: bool) -> TransferState {
    match i {
        Instruction::CallEvent { mode, index } => if mode == 0 && index == FREEZE_EVENT {
            TransferState { frozen: true, ..s }
        } else if mode == 0 && index == RELEASE_EVENT {
            TransferState { frozen: false, ..s }
        } else {
            s
        },
        Instruction::TransferPlayer => if s.frozen {
            TransferState { moved: true, ..s }
        } else {
            s
        },
        Instruction::Comment | Instruction::CommentNextLine => if !explained {
            TransferState { excluded: true, ..s }
        } else {
            s
        },
        _ => s,
    }
}

pub open spec fn transfer_step(s: TransferState, c: Command) -> TransferState {
    transfer_update(
        s,
        c.instruction,
        contains_seq(shift_jis_decoded(c.string@), transfer_explanation()),
    )
}

/// The transfer state after the first `n` commands of a page.
pub open spec fn transfer_after(cmds: Seq<Command>, n: int) -> TransferState
    decreases n,
{
    if n <= 0 {
        TransferState { frozen: false, moved: false, excluded: false }
    } else {
        transfer_step(transfer_after(cmds, n - 1), cmds[n - 1])
    }
}

/// Whether decoded comment text holds the known explanation.
pub fn is_transfer_explanation(text: &Vec<char>) -> (r: bool)
    ensures
        r == contains_seq(text@, transfer_explanation()),
{
    let marker = chars_of(
        "\u{79fb}\u{52d5}\u{5148}\u{30de}\u{30c3}\u{30d7}\u{3067}\u{76f4}\u{63a5}\u{300c}\u{ff72}\u{ff8d}\u{ff9e}\u{ff9d}\u{ff84}\u{4e2d}\u{52d5}\u{4f5c}\u{7981}\u{6b62}\u{89e3}\u{9664}\u{300d}\u{3057}\u{3066}\u{3044}\u{307e}\u{3059}\u{3002}",
    );
    contains(text, &marker)
}

impl TransferState {
    /// The state after an instruction; `explained` tells whether the
    /// decoded text of a comment holds the known explanation.
    pub fn step(self, i: Instruction, explained: bool) -> (r: TransferState)
        ensures
            r == transfer_update(self, i, explained),
    {
        match i {
            Instruction::CallEvent { mode, index } => if mode == 0 && index == FREEZE_EVENT {
                TransferState { frozen: true, ..self }
            } else if mode == 0 && index == RELEASE_EVENT {
                TransferState { frozen: false, ..self }
            } else {
                self
            },
            Instruction::TransferPlayer => if self.frozen {
                TransferState { moved: true, ..self }
            } else {
                self
            },
            Instruction::Comment | Instruction::CommentNextLine => if !explained {
                TransferState { excluded: true, ..self }
            } else {
                self
            },
            _ => self,
        }
    }
}

/// An instruction that is costly to run on every frame.
pub open spec fn is_laggy(i: Instruction) -> bool {
    i is PlayBGM || i is MovePicture || i is ShowPicture
}

/// Some of the first `n` commands is costly.
pub open spec fn laggy_before(cmds: Seq<Command>, n: int) -> bool {
    exists|c: int| 0 <= c < n && #[trigger] is_laggy(cmds[c].instruction)
}

/// Some of the first `n` commands erases the event.
pub open spec fn erased_before(cmds: Seq<Command>, n: int) -> bool {
    exists|c: int| 0 <= c < n && #[trigger] cmds[c].instruction == Instruction::EraseEvent
}

/// The command that a rule looks for in the first place.
pub open spec fn page_command_pattern(rule: PageRule, c: Command) -> bool {
    match rule {
        PageRule::WeatherParity => c.instruction is WeatherEffects || assigns_variable(
            c.instruction,
            WEATHER_VARIABLE,
        ),
        PageRule::TransferWhileFrozen => c.instruction is TransferPlayer,
        PageRule::LaggyParallel => is_laggy(c.instruction),
    }
}

/// Some command of `doc` is one that `rule` looks for.
pub open spec fn page_pattern_present(rule: PageRule, doc: Document) -> bool {
    exists|e: int, p: int, c: int|
        0 <= e < doc.events@.len() && 0 <= p < doc.events@[e].pages@.len() && 0 <= c
            < doc.events@[e].pages@[p].commands@.len() && #[trigger] page_command_pattern(
            rule,
            doc.events@[e].pages@[p].commands@[c],
        )
}

/// The location of page `p` of event `e`.
pub open spec fn page_location(doc: Document, e: int, p: int) -> DiagnosticEvent {
    DiagnosticEvent {
        id: doc.events@[e].id,
        x: doc.events@[e].x,
        y: doc.events@[e].y,
        page: Some(DiagnosticPage { id: (p + 1) as u32, command: None }),
    }
}

pub open spec fn weather_message(s: WeatherState) -> Seq<char> {
    if s is ExpectingVariable {
        "V0042 is not changed after changing the weather."@
    } else {
        "The weather is not changed after changing V0042."@
    }
}

/// What `rule` reports of a page with commands `page`, anchored at `at`.
pub open spec fn page_verdict(rule: PageRule, page: Page, at: DiagnosticEvent) -> Seq<DiagnosticView> {
    let cmds = page.commands@;
    let n = cmds.len() as int;
    match rule {
        PageRule::WeatherParity => {
            let s = weather_after(cmds, n);
            if s is ExpectingVariable || s is ExpectingWeather {
                seq![
                    DiagnosticView {
                        level: DiagnosticLevel::Error,
                        event: Some(at),
                        message: Some(weather_message(s)),
                    },
                ]
            } else {
                Seq::empty()
            }
        },
        PageRule::TransferWhileFrozen => {
            let s = transfer_after(cmds, n);
            if s.moved && !s.excluded {
                seq![DiagnosticView { level: DiagnosticLevel::Error, event: Some(at), message: None }]
            } else {
                Seq::empty()
            }
        },
        PageRule::LaggyParallel => if page.trigger == Trigger::Parallel && laggy_before(cmds, n)
            && !erased_before(cmds, n) {
            seq![DiagnosticView { level: DiagnosticLevel::Warning, event: Some(at), message: None }]
        } else {
            Seq::empty()
        },
    }
}

/// Findings of `rule` over the first `n` pages of event `e`.
pub open spec fn page_findings_in_event(rule: PageRule, doc: Document, e: int, n: int) -> Seq<
    DiagnosticView,
>
    decreases n,
{
    if n <= 0 {
        Seq::empty()
    } else {
        page_findings_in_event(rule, doc, e, n - 1) + page_verdict(
            rule,
            doc.events@[e].pages@[n - 1],
            page_location(doc, e, n - 1),
        )
    }
}

/// Findings of `rule` over the first `n` events.
pub open spec fn page_findings_in_events(rule: PageRule, doc: Document, n: int) -> Seq<
    DiagnosticView,
>
    decreases n,
{
    if n <= 0 {
        Seq::empty()
    } else {
        page_findings_in_events(rule, doc, n - 1) + page_findings_in_event(
            rule,
            doc,
            n - 1,
            doc.events@[n - 1].pages@.len() as int,
        )
    }
}

/// Everything `rule` reports of `doc`, in document order.
pub open spec fn page_findings(rule: PageRule, doc: Document) -> Seq<DiagnosticView> {
    page_findings_in_events(rule, doc, doc.events@.len() as int)
}

proof fn lemma_weather_needs_pattern(cmds: Seq<Command>, n: int)
    requires
        0 <= n <= cmds.len(),
        weather_after(cmds, n) != WeatherState::Normal,
    ensures
        exists|c: int| 0 <= c < n && #[trigger] page_command_pattern(PageRule::WeatherParity, cmds[c]),
    decreases n,
{
    if weather_after(cmds, n - 1) != WeatherState::Normal {
        lemma_weather_needs_pattern(cmds, n - 1);
    } else {
        assert(page_command_pattern(PageRule::WeatherParity, cmds[n - 1]));
    }
}

proof fn lemma_move_needs_pattern(cmds: Seq<Command>, n: int)
    requires
        0 <= n <= cmds.len(),
        transfer_after(cmds, n).moved,
    ensures
        exists|c: int| 0 <= c < n && #[trigger] page_command_pattern(PageRule::TransferWhileFrozen, cmds[c]),
    decreases n,
{
    if transfer_after(cmds, n - 1).moved {
        lemma_move_needs_pattern(cmds, n - 1);
    } else {
        assert(page_command_pattern(PageRule::TransferWhileFrozen, cmds[n - 1]));
    }
}

/// The verdict of `rule` on one page, and where the page is.
fn judge_page(rule: PageRule, page: &Page, at: DiagnosticEvent) -> (r: Option<Diagnostic>)
    requires
        page.wf(),
    ensures
        match r {
            Some(d) => page_verdict(rule, *page, at) == seq![d@] && exists|c: int|
                0 <= c < page.commands@.len() && #[trigger] page_command_pattern(
                    rule,
                    page.commands@[c],
                ),
            None => page_verdict(rule, *page, at) == Seq::<DiagnosticView>::empty(),
        },
{
    let n = page.commands.len();
    match rule {
        PageRule::WeatherParity => {
            let mut s = WeatherState::Normal;
            let mut k: usize = 0;
            while k < n
                invariant
                    n == page.commands@.len(),
                    k <= n,
                    s == weather_after(page.commands@, k as int),
                decreases n - k,
            {
                s = s.step(page.commands[k].instruction);
                k += 1;
            }
            match s {
                WeatherState::ExpectingVariable | WeatherState::ExpectingWeather => {
                    proof {
                        lemma_weather_needs_pattern(page.commands@, n as int);
                    }
                    let message = if s == WeatherState::ExpectingVariable {
                        String::from_str("V0042 is not changed after changing the weather.")
                    } else {
                        String::from_str("The weather is not changed after changing V0042.")
                    };
                    assert(message@ == weather_message(s));
                    let d = Diagnostic {
                        level: DiagnosticLevel::Error,
                        event: Some(at),
                        message: Some(message),
                    };
                    assert(page_verdict(rule, *page, at) =~= seq![d@]);
                    Some(d)
                },
                _ => None,
            }
        },
        PageRule::TransferWhileFrozen => {
            let mut s = TransferState { frozen: false, moved: false, excluded: false };
            let mut k: usize = 0;
            while k < n
                invariant
                    page.wf(),
                    n == page.commands@.len(),
                    k <= n,
                    s == transfer_after(page.commands@, k as int),
                decreases n - k,
            {
                let cmd = &page.commands[k];
                let explained = match cmd.instruction {
                    Instruction::Comment | Instruction::CommentNextLine => {
                        assert(page.commands@[k as int].wf());
                        let text = decode_shift_jis(cmd.string.as_slice());
                        is_transfer_explanation(&text)
                    },
                    _ => false,
                };
                s = s.step(cmd.instruction, explained);
                k += 1;
            }
            if s.moved && !s.excluded {
                proof {
                    lemma_move_needs_pattern(page.commands@, n as int);
                }
                Some(Diagnostic { level: DiagnosticLevel::Error, event: Some(at), message: None })
            } else {
                None
            }
        },
        PageRule::LaggyParallel => {
            if page.trigger != Trigger::Parallel {
                return None;
            }
            let mut laggy = false;
            let mut erased = false;
            let mut k: usize = 0;
            while k < n
                invariant
                    n == page.commands@.len(),
                    k <= n,
                    laggy == laggy_before(page.commands@, k as int),
                    erased == erased_before(page.commands@, k as int),
                decreases n - k,
            {
                match page.commands[k].instruction {
                    Instruction::PlayBGM | Instruction::MovePicture | Instruction::ShowPicture => {
                        laggy = true;
                    },
                    Instruction::EraseEvent => {
                        erased = true;
                    },
                    _ => {},
                }
                assert(laggy == laggy_before(page.commands@, k + 1)) by {
                    if is_laggy(page.commands@[k as int].instruction) {
                        assert(laggy_before(page.commands@, k + 1));
                    }
                }
                assert(erased == erased_before(page.commands@, k + 1)) by {
                    if page.commands@[k as int].instruction == Instruction::EraseEvent {
                        assert(erased_before(page.commands@, k + 1));
                    }
                }
                k += 1;
            }
            if laggy && !erased {
                proof {
                    let c = choose|c: int|
                        0 <= c < n && #[trigger] is_laggy(page.commands@[c].instruction);
                    assert(page_command_pattern(rule, page.commands@[c]));
                }
                Some(Diagnostic { level: DiagnosticLevel::Warning, event: Some(at), message: None })
            } else {
                None
            }
        },
    }
}

/// Runs `rule` over every page of `doc`, in document order.
pub fn scan_pages(rule: PageRule, doc: &Document) -> (r: Vec<Diagnostic>)
    requires
        doc.wf(),
    ensures
        diagnostic_views(r@) == page_findings(rule, *doc),
        all_resolve(*doc, diagnostic_views(r@)),
        !page_pattern_present(rule, *doc) ==> r@.len() == 0,
{
    let mut out: Vec<Diagnostic> = Vec::new();
    let mut e: usize = 0;
    while e < doc.events.len()
        invariant
            doc.wf(),
            e <= doc.events@.len(),
            diagnostic_views(out@) == page_findings_in_events(rule, *doc, e as int),
            all_resolve(*doc, diagnostic_views(out@)),
            !page_pattern_present(rule, *doc) ==> out@.len() == 0,
        decreases doc.events@.len() - e,
    {
        let event = &doc.events[e];
        assert(doc.events@[e as int].wf());
        let mut p: usize = 0;
        while p < event.pages.len()
            invariant
                doc.wf(),
                e < doc.events@.len(),
                *event == doc.events@[e as int],
                event.wf(),
                p <= event.pages@.len(),
                diagnostic_views(out@) == page_findings_in_events(rule, *doc, e as int)
                    + page_findings_in_event(rule, *doc, e as int, p as int),
                all_resolve(*doc, diagnostic_views(out@)),
                !page_pattern_present(rule, *doc) ==> out@.len() == 0,
            decreases event.pages@.len() - p,
        {
            let at = DiagnosticEvent::from_event(event).with_page(DiagnosticPage::new_from_index(p));
            assert(at == page_location(*doc, e as int, p as int));
            assert(event.pages@[p as int].wf());
            match judge_page(rule, &event.pages[p], at) {
                Some(d) => {
                    proof {
                        lemma_views_push(out@, d);
                        assert(page_verdict(rule, event.pages@[p as int], at)[0] == d@);
                        assert(located_at(*doc, e as int, at));
                        assert(resolves(*doc, d@));
                        let c = choose|c: int|
                            0 <= c < event.pages@[p as int].commands@.len()
                                && #[trigger] page_command_pattern(
                                rule,
                                event.pages@[p as int].commands@[c],
                            );
                        assert(page_pattern_present(rule, *doc)) by {
                            assert(page_command_pattern(
                                rule,
                                doc.events@[e as int].pages@[p as int].commands@[c],
                            ));
                        }
                    }
                    out.push(d);
                },
                None => {},
            }
            assert(diagnostic_views(out@) =~= page_findings_in_events(rule, *doc, e as int)
                + page_findings_in_event(rule, *doc, e as int, p + 1));
            p += 1;
        }
        assert(diagnostic_views(out@) =~= page_findings_in_events(rule, *doc, e + 1));
        e += 1;
    }
    out
}

} // verus!
