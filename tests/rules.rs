use map_lint::{
    BlueSignLint, Command, CommentLint, Diagnostic, DiagnosticEvent, DiagnosticLevel,
    DiagnosticPage, Document, Event, Graphic, InstantScrollLint, Instruction, Lint,
    PadeTransferLint, Page, ParallelEraseLint, ShowPictureLint, SpecialSkillsLint, TissueLint,
    Trigger, V44AssignmentLint, WeatherLint,
};

const ANCHOR: [u8; 14] = [131, 101, 131, 66, 131, 98, 131, 86, 131, 133, 43, 43, 43, 43];
const HELPER: [u8; 8] = [131, 101, 131, 66, 131, 98, 131, 86];
const SKILLS_MARKER: [u8; 8] = [129, 164, 83, 107, 105, 108, 108, 115];
const BOOKED: [u8; 4] = [151, 92, 150, 241];
const EXPLANATION: [u8; 53] = [
    136, 218, 147, 174, 144, 230, 131, 125, 131, 98, 131, 118, 130, 197, 146, 188, 144, 218, 129,
    117, 178, 205, 222, 221, 196, 146, 134, 147, 174, 141, 236, 139, 214, 142, 126, 137, 240, 143,
    156, 129, 118, 130, 181, 130, 196, 130, 162, 130, 220, 130, 183, 129, 66,
];

fn cmd(instruction: Instruction) -> Command {
    Command { indent: 0, string: Vec::new(), instruction }
}

fn comment(bytes: &[u8]) -> Command {
    Command { indent: 0, string: bytes.to_vec(), instruction: Instruction::Comment }
}

fn page(commands: Vec<Command>) -> Page {
    Page {
        trigger: Trigger::ActionButton,
        graphic: Graphic { file: Vec::new(), index: 0 },
        commands,
    }
}

fn event(id: u32, name: &[u8], pages: Vec<Page>) -> Event {
    Event { id, name: name.to_vec(), x: id + 1, y: id + 2, pages }
}

fn doc(events: Vec<Event>) -> Document {
    Document { events }
}

fn at(id: u32, page: u32, command: Option<u32>) -> Option<DiagnosticEvent> {
    Some(DiagnosticEvent { id, x: id + 1, y: id + 2, page: Some(DiagnosticPage { id: page, command }) })
}

fn message(d: &Diagnostic) -> Option<&str> {
    d.message.as_deref()
}

fn skill_check() -> Command {
    cmd(Instruction::ConditionalBranch { mode: 5, field1: 2, field2: 4 })
}

fn weather() -> Command {
    cmd(Instruction::WeatherEffects)
}

fn set_v42() -> Command {
    cmd(Instruction::ControlVariables { mode: 0, start: 42, end: 42 })
}

#[test]
fn reserved_variable_assignments_are_errors() {
    let d = doc(vec![event(
        1,
        b"a",
        vec![page(vec![
            cmd(Instruction::ControlVariables { mode: 0, start: 43, end: 43 }),
            cmd(Instruction::ControlVariables { mode: 0, start: 44, end: 44 }),
            cmd(Instruction::ControlVariables { mode: 1, start: 40, end: 50 }),
            cmd(Instruction::ControlVariables { mode: 1, start: 45, end: 50 }),
            cmd(Instruction::ControlVariables { mode: 2, start: 44, end: 44 }),
        ])],
    )]);
    let r = V44AssignmentLint.test(&d);
    assert_eq!(r.len(), 2);
    assert!(matches!(r[0].level, DiagnosticLevel::Error));
    assert_eq!(r[0].event, at(1, 1, Some(2)));
    assert_eq!(r[1].event, at(1, 1, Some(3)));
    assert_eq!(V44AssignmentLint.name(), "V0044 should not be assigned to");
}

#[test]
fn instant_scroll_is_a_warning() {
    let d = doc(vec![event(
        3,
        b"s",
        vec![page(vec![]), page(vec![
            cmd(Instruction::ScrollMap { speed: 4 }),
            cmd(Instruction::ScrollMap { speed: 53 }),
        ])],
    )]);
    let r = InstantScrollLint.test(&d);
    assert_eq!(r.len(), 1);
    assert!(matches!(r[0].level, DiagnosticLevel::Warning));
    assert_eq!(r[0].event, at(3, 2, Some(2)));
}

#[test]
fn show_picture_is_a_warning() {
    let d = doc(vec![event(
        2,
        b"p",
        vec![page(vec![cmd(Instruction::MovePicture), cmd(Instruction::ShowPicture)])],
    )]);
    let r = ShowPictureLint.test(&d);
    assert_eq!(r.len(), 1);
    assert!(matches!(r[0].level, DiagnosticLevel::Warning));
    assert_eq!(r[0].event, at(2, 1, Some(2)));
}

#[test]
fn long_comment_reports_width_and_limit() {
    let mut deep = comment(&[b'x'; 53]);
    deep.indent = 2;
    let mut deepest = comment(b"y");
    deepest.indent = 40;
    let d = doc(vec![event(
        1,
        b"c",
        vec![page(vec![comment(&[b'x'; 56]), comment(&[b'x'; 60]), deep, deepest])],
    )]);
    let r = CommentLint.test(&d);
    assert_eq!(r.len(), 3);
    assert_eq!(r[0].event, at(1, 1, Some(2)));
    assert_eq!(message(&r[0]), Some("60/56"));
    assert_eq!(message(&r[1]), Some("53/52"));
    assert_eq!(message(&r[2]), Some("1/0"));
    assert!(r.iter().all(|d| matches!(d.level, DiagnosticLevel::Warning)));
}

#[test]
fn long_comment_counts_decoded_characters() {
    // Thirty two-byte characters: sixty bytes but thirty characters.
    let text: Vec<u8> = [130u8, 160].repeat(30);
    let d = doc(vec![event(1, b"c", vec![page(vec![comment(&text)])])]);
    assert!(CommentLint.test(&d).is_empty());
    let wide: Vec<u8> = [130u8, 160].repeat(57);
    let d = doc(vec![event(1, b"c", vec![page(vec![comment(&wide)])])]);
    let r = CommentLint.test(&d);
    assert_eq!(message(&r[0]), Some("57/56"));
}

#[test]
fn unannotated_skill_check_is_one_error() {
    let d = doc(vec![event(1, b"e", vec![page(vec![skill_check(), cmd(Instruction::EraseEvent)])])]);
    let r = SpecialSkillsLint.test(&d);
    assert_eq!(r.len(), 1);
    assert!(matches!(r[0].level, DiagnosticLevel::Error));
    assert_eq!(r[0].event, at(1, 1, Some(1)));
}

#[test]
fn skills_annotation_before_excuses_the_check() {
    let d = doc(vec![event(1, b"e", vec![page(vec![comment(&SKILLS_MARKER), skill_check()])])]);
    assert!(SpecialSkillsLint.test(&d).is_empty());
    let d = doc(vec![event(
        1,
        b"e",
        vec![page(vec![comment(&SKILLS_MARKER)]), page(vec![skill_check()])],
    )]);
    assert!(SpecialSkillsLint.test(&d).is_empty());
}

#[test]
fn skills_annotation_after_does_not_excuse() {
    let d = doc(vec![event(1, b"e", vec![page(vec![skill_check(), comment(&SKILLS_MARKER)])])]);
    assert_eq!(SpecialSkillsLint.test(&d).len(), 1);
}

#[test]
fn skills_annotation_does_not_reach_other_events() {
    let d = doc(vec![
        event(1, b"e", vec![page(vec![comment(&SKILLS_MARKER)])]),
        event(2, b"f", vec![page(vec![skill_check()])]),
    ]);
    let r = SpecialSkillsLint.test(&d);
    assert_eq!(r.len(), 1);
    assert_eq!(r[0].event, at(2, 1, Some(1)));
}

#[test]
fn weather_without_variable_is_one_error_at_the_page() {
    let d = doc(vec![event(1, b"w", vec![page(vec![weather()])])]);
    let r = WeatherLint.test(&d);
    assert_eq!(r.len(), 1);
    assert!(matches!(r[0].level, DiagnosticLevel::Error));
    assert_eq!(r[0].event, at(1, 1, None));
    assert_eq!(message(&r[0]), Some("V0042 is not changed after changing the weather."));
}

#[test]
fn variable_without_weather_is_one_error() {
    let d = doc(vec![event(1, b"w", vec![page(vec![cmd(Instruction::ControlVariables {
        mode: 1,
        start: 40,
        end: 42,
    })])])]);
    let r = WeatherLint.test(&d);
    assert_eq!(r.len(), 1);
    assert_eq!(message(&r[0]), Some("The weather is not changed after changing V0042."));
}

#[test]
fn weather_and_variable_in_either_order_are_clean() {
    let d = doc(vec![event(
        1,
        b"w",
        vec![page(vec![weather(), set_v42()]), page(vec![set_v42(), weather()])],
    )]);
    assert!(WeatherLint.test(&d).is_empty());
}

#[test]
fn weather_parity_is_judged_per_page() {
    let d = doc(vec![event(1, b"w", vec![page(vec![weather()]), page(vec![set_v42()])])]);
    let r = WeatherLint.test(&d);
    assert_eq!(r.len(), 2);
    assert_eq!(r[0].event, at(1, 1, None));
    assert_eq!(r[1].event, at(1, 2, None));
}

fn freeze() -> Command {
    cmd(Instruction::CallEvent { mode: 0, index: 8 })
}

fn release() -> Command {
    cmd(Instruction::CallEvent { mode: 0, index: 9 })
}

#[test]
fn transfer_while_frozen_is_an_error() {
    let d = doc(vec![event(
        4,
        b"t",
        vec![page(vec![freeze(), cmd(Instruction::TransferPlayer), release()])],
    )]);
    let r = PadeTransferLint.test(&d);
    assert_eq!(r.len(), 1);
    assert!(matches!(r[0].level, DiagnosticLevel::Error));
    assert_eq!(r[0].event, at(4, 1, None));
}

#[test]
fn transfer_after_release_is_clean() {
    let d = doc(vec![event(
        4,
        b"t",
        vec![page(vec![freeze(), release(), cmd(Instruction::TransferPlayer)])],
    )]);
    assert!(PadeTransferLint.test(&d).is_empty());
}

#[test]
fn other_comment_excuses_a_frozen_transfer() {
    let frozen = vec![freeze(), cmd(Instruction::TransferPlayer)];
    let mut with_other = frozen.clone();
    with_other.push(comment(b"handled elsewhere"));
    let d = doc(vec![event(4, b"t", vec![page(with_other)])]);
    assert!(PadeTransferLint.test(&d).is_empty());
    let mut with_explanation = frozen;
    with_explanation.push(comment(&EXPLANATION));
    let d = doc(vec![event(4, b"t", vec![page(with_explanation)])]);
    assert_eq!(PadeTransferLint.test(&d).len(), 1);
}

#[test]
fn laggy_parallel_page_without_erase_is_warned() {
    let mut parallel = page(vec![cmd(Instruction::PlayBGM)]);
    parallel.trigger = Trigger::Parallel;
    let mut erased = page(vec![cmd(Instruction::MovePicture), cmd(Instruction::EraseEvent)]);
    erased.trigger = Trigger::Parallel;
    let touched = page(vec![cmd(Instruction::ShowPicture)]);
    let d = doc(vec![event(6, b"l", vec![touched, parallel, erased])]);
    let r = ParallelEraseLint.test(&d);
    assert_eq!(r.len(), 1);
    assert!(matches!(r[0].level, DiagnosticLevel::Warning));
    assert_eq!(r[0].event, at(6, 2, None));
}

fn sign_page(index: u32) -> Page {
    Page {
        trigger: Trigger::ActionButton,
        graphic: Graphic { file: b"system_kyouyu_gazou06".to_vec(), index },
        commands: Vec::new(),
    }
}

#[test]
fn blue_sign_without_note_is_an_error() {
    let d = doc(vec![event(7, b"sign", vec![page(vec![]), sign_page(2)])]);
    let r = BlueSignLint.test(&d);
    assert_eq!(r.len(), 1);
    assert!(matches!(r[0].level, DiagnosticLevel::Error));
    assert_eq!(r[0].event, Some(DiagnosticEvent { id: 7, x: 8, y: 9, page: None }));
}

#[test]
fn blue_sign_with_note_is_clean() {
    let d = doc(vec![event(7, b"sign", vec![sign_page(1), page(vec![comment(b"Reserved")])])]);
    assert!(BlueSignLint.test(&d).is_empty());
    let d = doc(vec![event(7, b"sign", vec![sign_page(1), page(vec![comment(&BOOKED)])])]);
    assert!(BlueSignLint.test(&d).is_empty());
    let d = doc(vec![event(7, b"sign", vec![sign_page(3)])]);
    assert!(BlueSignLint.test(&d).is_empty());
}

fn call(id: u32) -> Command {
    cmd(Instruction::CallEvent { mode: 1, index: id })
}

fn anchor_doc(refs: Vec<Command>, helpers: Vec<Event>) -> Document {
    let mut events = vec![event(1, &ANCHOR, vec![page(vec![]), page(refs)])];
    events.extend(helpers);
    doc(events)
}

fn helpers() -> Vec<Event> {
    (2..=6).map(|id| event(id, &HELPER, vec![])).collect()
}

#[test]
fn sound_tissues_are_clean() {
    let mut refs: Vec<Command> = (2..=5).map(call).collect();
    refs.push(cmd(Instruction::SetEventLocation { source: 6 }));
    assert!(TissueLint.test(&anchor_doc(refs, helpers())).is_empty());
}

#[test]
fn missing_tissue_is_one_error_naming_the_id() {
    let refs = vec![call(2), call(3), call(99), call(5), call(6)];
    let r = TissueLint.test(&anchor_doc(refs, helpers()));
    assert_eq!(r.len(), 1);
    assert!(matches!(r[0].level, DiagnosticLevel::Error));
    assert_eq!(message(&r[0]), Some("Tissue 3 points to non-existent event EV0099"));
    assert_eq!(r[0].event, Some(DiagnosticEvent { id: 1, x: 2, y: 3, page: None }));
}

#[test]
fn no_anchor_is_one_warning() {
    let d = doc(vec![event(1, b"nothing", vec![page(vec![call(2)])])]);
    let r = TissueLint.test(&d);
    assert_eq!(r.len(), 1);
    assert!(matches!(r[0].level, DiagnosticLevel::Warning));
    assert_eq!(r[0].event, None);
    assert_eq!(message(&r[0]), Some("Does not have tissue events"));
}

#[test]
fn wrong_tissue_count_is_an_error() {
    let refs = vec![call(2), call(3), call(4), call(5)];
    let r = TissueLint.test(&anchor_doc(refs, helpers()));
    assert_eq!(r.len(), 1);
    assert!(matches!(r[0].level, DiagnosticLevel::Error));
    assert_eq!(
        message(&r[0]),
        Some("Expected 5 tissues but found 4. This is likely a bug with this tool.")
    );
}

#[test]
fn misnamed_tissue_is_an_error_at_the_helper() {
    let mut hs = helpers();
    hs[1].name = b"other".to_vec();
    let mut latin = event(9, b"tissue", vec![]);
    latin.x = 0;
    hs.push(latin);
    let refs = vec![call(2), call(3), call(4), call(5), call(9)];
    let r = TissueLint.test(&anchor_doc(refs, hs));
    assert_eq!(r.len(), 1);
    assert_eq!(message(&r[0]), Some("incorrect event pointed to by tissue 2."));
    assert_eq!(r[0].event, Some(DiagnosticEvent { id: 3, x: 4, y: 5, page: None }));
}

#[test]
fn clean_document_gets_no_findings() {
    let d = doc(vec![event(
        1,
        b"plain",
        vec![page(vec![cmd(Instruction::MovePicture), cmd(Instruction::EraseEvent), comment(b"ok")])],
    )]);
    let rules: Vec<&dyn Lint> = vec![
        &WeatherLint,
        &V44AssignmentLint,
        &InstantScrollLint,
        &SpecialSkillsLint,
        &CommentLint,
        &ShowPictureLint,
        &BlueSignLint,
        &PadeTransferLint,
        &ParallelEraseLint,
    ];
    for rule in rules {
        assert!(rule.test(&d).is_empty(), "{}", rule.name());
    }
}

#[test]
fn every_location_resolves() {
    let mut parallel = page(vec![cmd(Instruction::ShowPicture), weather(), skill_check()]);
    parallel.trigger = Trigger::Parallel;
    let d = doc(vec![
        event(5, b"a", vec![page(vec![comment(&[b'z'; 70])]), parallel]),
        event(8, &ANCHOR, vec![page(vec![call(5), call(5), call(5), call(5), call(6)])]),
    ]);
    let rules: Vec<&dyn Lint> = vec![
        &WeatherLint,
        &TissueLint,
        &SpecialSkillsLint,
        &CommentLint,
        &ShowPictureLint,
        &ParallelEraseLint,
    ];
    let mut seen = 0;
    for rule in rules {
        for diagnostic in rule.test(&d) {
            seen += 1;
            let loc = diagnostic.event.expect("located");
            let ev = d.events.iter().find(|e| e.id == loc.id && e.x == loc.x && e.y == loc.y);
            let ev = ev.expect("event exists");
            if let Some(p) = loc.page {
                assert!(p.id >= 1 && (p.id as usize) <= ev.pages.len());
                if let Some(c) = p.command {
                    assert!(c >= 1 && (c as usize) <= ev.pages[p.id as usize - 1].commands.len());
                }
            }
        }
    }
    assert!(seen >= 6);
}
