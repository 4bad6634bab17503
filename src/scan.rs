//! Rules that judge each command on its own (with, at most, what came
//! earlier in the same event), and the one scan that runs them.
use vstd::prelude::*;
use crate::diagnostic::{
    all_resolve, diagnostic_views, lemma_views_push, located_at, resolves, Diagnostic,
    DiagnosticEvent, DiagnosticLevel, DiagnosticPage, DiagnosticView,
};
use crate::document::{Command, Document, Event, Instruction};
use crate::text::{
    chars_of, contains, contains_seq, decimal, decode_shift_jis, push_decimal, push_str,
    shift_jis_decoded, string_of,
};

verus! {

/// The variable that event code must leave to the engine.
pub const RESERVED_VARIABLE: u32 = 44;

/// The scroll speed that stands for an instant scroll.
pub const INSTANT_SCROLL_SPEED: u32 = 53;

/// Width of the comment box, in characters, at nesting depth zero.
pub const COMMENT_WIDTH: u32 = 56;

/// The per-command rules.
#[derive(Clone, Copy, Debug, PartialEq, Eq, Structural)]
pub enum CommandRule {
    /// An assignment that reaches the reserved variable.
    ReservedVariable,
    /// A map scroll at the instant speed.
    InstantScroll,
    /// A picture shown where it could have been moved.
    ShowPicture,
    /// A comment line wider than its box.
    LongComment,
    /// A skill check with no skills annotation earlier in its event.
    UnannotatedSkill,
}

pub open spec fn is_comment(i: Instruction) -> bool {
    i is Comment || i is CommentNextLine
}

/// `i` assigns to variable `v`, alone or within a range.
pub open spec fn assigns_variable(i: Instruction, v: u32) -> bool {
    match i {
        Instruction::ControlVariables { mode, start, end } =>
            (mode == 0 && start == v) || (mode == 1 && start <= v && v <= end),
        _ => false,
    }
}

/// `i` checks whether an actor knows a skill.
pub open spec fn is_skill_check(i: Instruction) -> bool {
    match i {
        Instruction::ConditionalBranch { mode, field1, field2 } =>
            mode == 5 && field1 == 2 && field2 == 4,
        _ => false,
    }
}

/// The widest a comment line may be at nesting depth `indent`.
pub open spec fn comment_limit_of(indent: u32) -> nat {
    if indent >= 28 { 0 } else { (56 - 2 * indent) as nat }
}

/// The marker that excuses later skill checks of the event.
pub open spec fn skills_marker() -> Seq<char> {
    "\u{25bd}Skills"@
}

/// A comment whose decoded text holds the skills marker.
pub open spec fn is_skills_annotation(c: Command) -> bool {
    is_comment(c.instruction) && contains_seq(shift_jis_decoded(c.string@), skills_marker())
}

/// Some of the first `n` commands is a skills annotation.
pub open spec fn annotated_before(cmds: Seq<Command>, n: int) -> bool
    decreases n,
{
    if n <= 0 {
        false
    } else {
        annotated_before(cmds, n - 1) || is_skills_annotation(cmds[n - 1])
    }
}

/// Some command of the first `n` pages of `ev` is a skills annotation.
pub open spec fn annotated_before_page(ev: Event, n: int) -> bool
    decreases n,
{
    if n <= 0 {
        false
    } else {
        annotated_before_page(ev, n - 1) || annotated_before(
            ev.pages@[n - 1].commands@,
            ev.pages@[n - 1].commands@.len() as int,
        )
    }
}

/// Command `c` of page `p` of `ev` comes after a skills annotation of the same event.
pub open spec fn skills_excused(ev: Event, p: int, c: int) -> bool {
    annotated_before_page(ev, p) || annotated_before(ev.pages@[p].commands@, c)
}

/// The location of command `c` of page `p` of event `e`.
pub open spec fn command_location(doc: Document, e: int, p: int, c: int) -> DiagnosticEvent {
    DiagnosticEvent {
        id: doc.events@[e].id,
        x: doc.events@[e].x,
        y: doc.events@[e].y,
        page: Some(DiagnosticPage { id: (p + 1) as u32, command: Some((c + 1) as u32) }),
    }
}

/// The command that a rule looks for in the first place.
pub open spec fn command_pattern(rule: CommandRule, c: Command) -> bool {
    match rule {
        CommandRule::ReservedVariable => assigns_variable(c.instruction, RESERVED_VARIABLE),
        CommandRule::InstantScroll => c.instruction == (Instruction::ScrollMap {
            speed: INSTANT_SCROLL_SPEED,
        }),
        CommandRule::ShowPicture => c.instruction is ShowPicture,
        CommandRule::LongComment => is_comment(c.instruction),
        CommandRule::UnannotatedSkill => is_skill_check(c.instruction),
    }
}

/// The message for a comment of `len` characters in a box of `max`.
pub open spec fn comment_message(len: nat, max: nat) -> Seq<char> {
    decimal(len) + "/"@ + decimal(max)
}

/// What `rule` reports of command `c` of page `p` of event `e`: nothing or one finding.
pub open spec fn command_finding(rule: CommandRule, doc: Document, e: int, p: int, c: int) -> Seq<
    DiagnosticView,
> {
    let cmd = doc.events@[e].pages@[p].commands@[c];
    let at = Some(command_location(doc, e, p, c));
    if !command_pattern(rule, cmd) {
        Seq::empty()
    } else {
        match rule {
            CommandRule::ReservedVariable => seq![
                DiagnosticView { level: DiagnosticLevel::Error, event: at, message: None },
            ],
            CommandRule::InstantScroll => seq![
                DiagnosticView { level: DiagnosticLevel::Warning, event: at, message: None },
            ],
            CommandRule::ShowPicture => seq![
                DiagnosticView { level: DiagnosticLevel::Warning, event: at, message: None },
            ],
            CommandRule::LongComment => {
                let len = shift_jis_decoded(cmd.string@).len();
                let max = comment_limit_of(cmd.indent);
                if len > max {
                    seq![
                        DiagnosticView {
                            level: DiagnosticLevel::Warning,
                            event: at,
                            message: Some(comment_message(len, max)),
                        },
                    ]
                } else {
                    Seq::empty()
                }
            },
            CommandRule::UnannotatedSkill => if skills_excused(doc.events@[e], p, c) {
                Seq::empty()
            } else {
                seq![DiagnosticView { level: DiagnosticLevel::Error, event: at, message: None }]
            },
        }
    }
}

/// Findings of `rule` over the first `n` commands of page `p` of event `e`.
pub open spec fn findings_in_page(rule: CommandRule, doc: Document, e: int, p: int, n: int) -> Seq<
    DiagnosticView,
>
    decreases n,
{
    if n <= 0 {
        Seq::empty()
    } else {
        findings_in_page(rule, doc, e, p, n - 1) + command_finding(rule, doc, e, p, n - 1)
    }
}

/// Findings of `rule` over the first `n` pages of event `e`.
pub open spec fn findings_in_event(rule: CommandRule, doc: Document, e: int, n: int) -> Seq<
    DiagnosticView,
>
    decreases n,
{
    if n <= 0 {
        Seq::empty()
    } else {
        findings_in_event(rule, doc, e, n - 1) + findings_in_page(
            rule,
            doc,
            e,
            n - 1,
            doc.events@[e].pages@[n - 1].commands@.len() as int,
        )
    }
}

/// Findings of `rule` over the first `n` events.
pub open spec fn findings_in_events(rule: CommandRule, doc: Document, n: int) -> Seq<
    DiagnosticView,
>
    decreases n,
{
    if n <= 0 {
        Seq::empty()
    } else {
        findings_in_events(rule, doc, n - 1) + findings_in_event(
            rule,
            doc,
            n - 1,
            doc.events@[n - 1].pages@.len() as int,
        )
    }
}

/// Everything `rule` reports of `doc`, in document order.
pub open spec fn command_findings(rule: CommandRule, doc: Document) -> Seq<DiagnosticView> {
    findings_in_events(rule, doc, doc.events@.len() as int)
}

/// Some command of `doc` is one that `rule` looks for.
pub open spec fn pattern_present(rule: CommandRule, doc: Document) -> bool {
    exists|e: int, p: int, c: int|
        0 <= e < doc.events@.len() && 0 <= p < doc.events@[e].pages@.len() && 0 <= c
            < doc.events@[e].pages@[p].commands@.len() && #[trigger] command_pattern(
            rule,
            doc.events@[e].pages@[p].commands@[c],
        )
}

/// The widest a comment line may be at nesting depth `indent`.
pub fn comment_limit(indent: u32) -> (r: u32)
    ensures
        r == comment_limit_of(indent),
{
    if indent >= 28 {
        0
    } else {
        COMMENT_WIDTH - 2 * indent
    }
}

/// Whether decoded comment text holds the skills marker.
pub fn is_skills_marker_text(text: &Vec<char>) -> (r: bool)
    ensures
        r == contains_seq(text@, skills_marker()),
{
    let marker = chars_of("\u{25bd}Skills");
    contains(text, &marker)
}

/// The finding for a comment of `len` decoded characters at nesting depth
/// `indent`, located at `at`: a warning when it is wider than its box.
pub fn long_comment_finding(at: DiagnosticEvent, indent: u32, len: usize) -> (r: Option<
    Diagnostic,
>)
    ensures
        len > comment_limit_of(indent) ==> r is Some && r->0@ == (DiagnosticView {
            level: DiagnosticLevel::Warning,
            event: Some(at),
            message: Some(comment_message(len as nat, comment_limit_of(indent))),
        }),
        len <= comment_limit_of(indent) ==> r is None,
{
    let max = comment_limit(indent);
    if len > max as usize {
        let mut text: Vec<char> = Vec::new();
        push_decimal(&mut text, len as u64, 0);
        push_str(&mut text, "/");
        push_decimal(&mut text, max as u64, 0);
        assert(text@ =~= comment_message(len as nat, max as nat));
        Some(Diagnostic {
            level: DiagnosticLevel::Warning,
            event: Some(at),
            message: Some(string_of(&text)),
        })
    } else {
        None
    }
}

fn is_comment_instruction(i: Instruction) -> (r: bool)
    ensures
        r == is_comment(i),
{
    match i {
        Instruction::Comment | Instruction::CommentNextLine => true,
        _ => false,
    }
}

fn matches_pattern(rule: CommandRule, i: Instruction) -> (r: bool)
    ensures
        forall|c: Command| c.instruction == i ==> r == command_pattern(rule, c),
{
    match rule {
        CommandRule::ReservedVariable => match i {
            Instruction::ControlVariables { mode, start, end } =>
                (mode == 0 && start == RESERVED_VARIABLE) || (mode == 1 && start
                    <= RESERVED_VARIABLE && RESERVED_VARIABLE <= end),
            _ => false,
        },
        CommandRule::InstantScroll => match i {
            Instruction::ScrollMap { speed } => speed == INSTANT_SCROLL_SPEED,
            _ => false,
        },
        CommandRule::ShowPicture => match i {
            Instruction::ShowPicture => true,
            _ => false,
        },
        CommandRule::LongComment => is_comment_instruction(i),
        CommandRule::UnannotatedSkill => match i {
            Instruction::ConditionalBranch { mode, field1, field2 } => mode == 5 && field1 == 2
                && field2 == 4,
            _ => false,
        },
    }
}

fn finding_at(
    rule: CommandRule,
    doc: &Document,
    e: usize,
    p: usize,
    c: usize,
    excused: bool,
) -> (r: Option<Diagnostic>)
    requires
        doc.wf(),
        e < doc.events@.len(),
        p < doc.events@[e as int].pages@.len(),
        c < doc.events@[e as int].pages@[p as int].commands@.len(),
        rule is UnannotatedSkill ==> excused == skills_excused(doc.events@[e as int], p as int, c as int),
    ensures
        match r {
            Some(d) => command_finding(rule, *doc, e as int, p as int, c as int) == seq![d@]
                && command_pattern(rule, doc.events@[e as int].pages@[p as int].commands@[c as int]),
            None => command_finding(rule, *doc, e as int, p as int, c as int) == Seq::<DiagnosticView>::empty(),
        },
{
    let event = &doc.events[e];
    let cmd = &event.pages[p].commands[c];
    assert(doc.events@[e as int].wf());
    assert(event.pages@[p as int].wf());
    if !matches_pattern(rule, cmd.instruction) {
        return None;
    }
    let at = DiagnosticEvent::from_event(event).with_page(DiagnosticPage::new_from_indexes(p, c));
    assert(at == command_location(*doc, e as int, p as int, c as int));
    match rule {
        CommandRule::ReservedVariable => Some(
            Diagnostic { level: DiagnosticLevel::Error, event: Some(at), message: None },
        ),
        CommandRule::InstantScroll => Some(
            Diagnostic { level: DiagnosticLevel::Warning, event: Some(at), message: None },
        ),
        CommandRule::ShowPicture => Some(
            Diagnostic { level: DiagnosticLevel::Warning, event: Some(at), message: None },
        ),
        CommandRule::LongComment => {
            assert(event.pages@[p as int].commands@[c as int].wf());
            let text = decode_shift_jis(cmd.string.as_slice());
            long_comment_finding(at, cmd.indent, text.len())
        },
        CommandRule::UnannotatedSkill => if excused {
            None
        } else {
            Some(Diagnostic { level: DiagnosticLevel::Error, event: Some(at), message: None })
        },
    }
}

/// Runs `rule` over every command of `doc`, in document order.
pub fn scan_commands(rule: CommandRule, doc: &Document) -> (r: Vec<Diagnostic>)
    requires
        doc.wf(),
    ensures
        diagnostic_views(r@) == command_findings(rule, *doc),
        all_resolve(*doc, diagnostic_views(r@)),
        !pattern_present(rule, *doc) ==> r@.len() == 0,
{
    let mut out: Vec<Diagnostic> = Vec::new();
    let mut e: usize = 0;
    while e < doc.events.len()
        invariant
            doc.wf(),
            e <= doc.events@.len(),
            diagnostic_views(out@) == findings_in_events(rule, *doc, e as int),
            all_resolve(*doc, diagnostic_views(out@)),
            !pattern_present(rule, *doc) ==> out@.len() == 0,
        decreases doc.events@.len() - e,
    {
        let event = &doc.events[e];
        let mut excused = false;
        let mut p: usize = 0;
        while p < event.pages.len()
            invariant
                doc.wf(),
                e < doc.events@.len(),
                *event == doc.events@[e as int],
                p <= event.pages@.len(),
                diagnostic_views(out@) == findings_in_events(rule, *doc, e as int)
                    + findings_in_event(rule, *doc, e as int, p as int),
                rule is UnannotatedSkill ==> excused == annotated_before_page(*event, p as int),
                all_resolve(*doc, diagnostic_views(out@)),
                !pattern_present(rule, *doc) ==> out@.len() == 0,
            decreases event.pages@.len() - p,
        {
            let page = &event.pages[p];
            let mut c: usize = 0;
            while c < page.commands.len()
                invariant
                    doc.wf(),
                    e < doc.events@.len(),
                    *event == doc.events@[e as int],
                    p < event.pages@.len(),
                    *page == event.pages@[p as int],
                    c <= page.commands@.len(),
                    diagnostic_views(out@) == findings_in_events(rule, *doc, e as int)
                        + findings_in_event(rule, *doc, e as int, p as int) + findings_in_page(
                        rule,
                        *doc,
                        e as int,
                        p as int,
                        c as int,
                    ),
                    rule is UnannotatedSkill ==> excused == skills_excused(
                        *event,
                        p as int,
                        c as int,
                    ),
                    all_resolve(*doc, diagnostic_views(out@)),
                    !pattern_present(rule, *doc) ==> out@.len() == 0,
                decreases page.commands@.len() - c,
            {
                let found = finding_at(rule, doc, e, p, c, excused);
                match found {
                    Some(d) => {
                        proof {
                            assert(doc.events@[e as int].wf());
                            assert(event.pages@[p as int].wf());
                            lemma_views_push(out@, d);
                            assert(located_at(*doc, e as int, command_location(*doc, e as int, p as int, c as int)));
                            assert(command_finding(rule, *doc, e as int, p as int, c as int)[0] == d@);
                            assert(d@.event == Some(command_location(*doc, e as int, p as int, c as int)));
                            assert(resolves(*doc, d@));
                            assert(pattern_present(rule, *doc)) by {
                                assert(command_pattern(rule, doc.events@[e as int].pages@[p as int].commands@[c as int]));
                            }
                        }
                        out.push(d);
                        assert(all_resolve(*doc, diagnostic_views(out@)));
                    },
                    None => {},
                }
                assert(diagnostic_views(out@) =~= findings_in_events(rule, *doc, e as int)
                    + findings_in_event(rule, *doc, e as int, p as int) + findings_in_page(
                    rule,
                    *doc,
                    e as int,
                    p as int,
                    c + 1,
                ));
                if rule == CommandRule::UnannotatedSkill && is_comment_instruction(
                    page.commands[c].instruction,
                ) {
                    assert(doc.events@[e as int].wf());
                    assert(page.wf());
                    assert(page.commands@[c as int].wf());
                    let text = decode_shift_jis(page.commands[c].string.as_slice());
                    if is_skills_marker_text(&text) {
                        excused = true;
                    }
                }
                c += 1;
            }
            assert(diagnostic_views(out@) =~= findings_in_events(rule, *doc, e as int)
                + findings_in_event(rule, *doc, e as int, p + 1));
            p += 1;
        }
        assert(diagnostic_views(out@) =~= findings_in_events(rule, *doc, e + 1));
        e += 1;
    }
    out
}

} // verus!
